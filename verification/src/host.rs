//! Plain values that cross the boundary to the hosting application.

use vstd::prelude::*;
use vstd::string::*;

verus! {

/// What happened to a row of a table.
#[derive(Clone, Copy, Debug, PartialEq, Eq, Structural)]
pub enum UpdateAction {
    Delete,
    Insert,
    Update,
    Unknown,
}

/// The number under which the hosting application knows an update action.
pub open spec fn update_type_of(action: UpdateAction) -> i32 {
    match action {
        UpdateAction::Delete => 9i32,
        UpdateAction::Insert => 18i32,
        UpdateAction::Update => 23i32,
        UpdateAction::Unknown => (-1i32),
    }
}

/// A change of one row, as it is reported to the hosting application.
#[derive(Clone, Debug, PartialEq, Eq)]
pub struct SQLiteUpdateEvent {
    pub update_type: i32,
    pub db_name: String,
    pub table_name: String,
    pub row_id: i64,
}

/// The report of `action` on row `row_id` of `table_name` in `db_name`.
pub fn update_event(action: UpdateAction, db_name: &str, table_name: &str, row_id: i64) -> (r:
    SQLiteUpdateEvent)
    ensures
        r.update_type == update_type_of(action),
        r.db_name@ == db_name@,
        r.table_name@ == table_name@,
        r.row_id == row_id,
{
    let update_type: i32 = match action {
        UpdateAction::Delete => 9,
        UpdateAction::Insert => 18,
        UpdateAction::Update => 23,
        UpdateAction::Unknown => -1,
    };
    SQLiteUpdateEvent {
        update_type,
        db_name: db_name.to_owned(),
        table_name: table_name.to_owned(),
        row_id,
    }
}

/// How a peer is reached.
#[derive(Clone, Copy, Debug, PartialEq, Eq, Structural)]
pub enum ConnectionKind {
    Direct,
    Relay,
    Mixed,
    Unconnected,
}

/// The name under which the hosting application knows a kind of connection.
pub fn connection_type_name(kind: ConnectionKind) -> (r: String)
    ensures
        r@ == (match kind {
            ConnectionKind::Direct => "Direct"@,
            ConnectionKind::Relay => "Relay"@,
            ConnectionKind::Mixed => "Mixed"@,
            ConnectionKind::Unconnected => "None"@,
        }),
{
    let name: &str = match kind {
        ConnectionKind::Direct => "Direct",
        ConnectionKind::Relay => "Relay",
        ConnectionKind::Mixed => "Mixed",
        ConnectionKind::Unconnected => "None",
    };
    name.to_owned()
}

} // verus!
