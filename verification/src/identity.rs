//! Peer identities: fixed-size public-key values compared bit by bit.

use vstd::prelude::*;

verus! {

/// Number of bytes in a peer identity.
pub const IDENTITY_LEN: usize = 32;

/// The public-key address of a participant. Its view is its 32 bytes.
#[derive(Clone, Copy, Debug, PartialEq, Eq, PartialOrd, Ord, Hash)]
pub struct PeerIdentity {
    bytes: [u8; 32],
}

impl View for PeerIdentity {
    type V = Seq<u8>;

    closed spec fn view(&self) -> Seq<u8> {
        self.bytes@
    }
}

/// Bit-wise order on byte strings of equal length: the first differing byte
/// decides.
pub open spec fn bytes_before(a: Seq<u8>, b: Seq<u8>) -> bool {
    exists|i: int|
        0 <= i < a.len() && i < b.len() && a[i] < b[i] && a.subrange(0, i) == b.subrange(0, i)
}

impl PeerIdentity {
    /// Every identity has exactly `IDENTITY_LEN` bytes.
    pub proof fn lemma_len(self)
        ensures
            self@.len() == IDENTITY_LEN,
    {
    }

    /// Identities with the same bytes are the same identity.
    pub proof fn lemma_view_injective(self, other: PeerIdentity)
        requires
            self@ == other@,
        ensures
            self == other,
    {
        assert(self.bytes@ =~= other.bytes@);
        assert(self.bytes == other.bytes);
    }

    /// Builds an identity from its bytes; `None` unless there are exactly
    /// `IDENTITY_LEN` of them.
    pub fn from_bytes(bytes: &[u8]) -> (r: Option<PeerIdentity>)
        ensures
            r is Some <==> bytes@.len() == IDENTITY_LEN,
            r matches Some(id) ==> id@ == bytes@,
    {
        if bytes.len() != IDENTITY_LEN {
            return None;
        }
        let mut out: [u8; 32] = [0u8; 32];
        let mut i: usize = 0;
        while i < 32
            invariant
                i <= 32,
                bytes@.len() == 32,
                forall|j: int| 0 <= j < i ==> out@[j] == bytes@[j],
            decreases 32 - i,
        {
            out[i] = bytes[i];
            i += 1;
        }
        assert(out@ =~= bytes@);
        Some(PeerIdentity { bytes: out })
    }

    /// The identity's bytes.
    pub fn to_bytes(&self) -> (r: Vec<u8>)
        ensures
            r@ == self@,
    {
        let mut out: Vec<u8> = Vec::new();
        let mut i: usize = 0;
        while i < 32
            invariant
                i <= 32,
                out@.len() == i,
                forall|j: int| 0 <= j < i ==> out@[j] == self.bytes@[j],
            decreases 32 - i,
        {
            out.push(self.bytes[i]);
            i += 1;
        }
        assert(out@ =~= self.bytes@);
        out
    }

    /// Bit-wise equality.
    pub fn same(&self, other: &PeerIdentity) -> (r: bool)
        ensures
            r == (self@ == other@),
            r == (*self == *other),
    {
        let mut i: usize = 0;
        while i < 32
            invariant
                i <= 32,
                forall|j: int| 0 <= j < i ==> self.bytes@[j] == other.bytes@[j],
            decreases 32 - i,
        {
            if self.bytes[i] != other.bytes[i] {
                return false;
            }
            i += 1;
        }
        assert(self.bytes@ =~= other.bytes@);
        proof {
            self.lemma_view_injective(*other);
        }
        true
    }

    /// Bit-wise strict order: whether `self` comes before `other`.
    pub fn before(&self, other: &PeerIdentity) -> (r: bool)
        ensures
            r == bytes_before(self@, other@),
    {
        let mut i: usize = 0;
        while i < 32
            invariant
                i <= 32,
                forall|j: int| 0 <= j < i ==> self.bytes@[j] == other.bytes@[j],
            decreases 32 - i,
        {
            if self.bytes[i] != other.bytes[i] {
                let less = self.bytes[i] < other.bytes[i];
                proof {
                    let a = self@;
                    let b = other@;
                    let k = i as int;
                    assert(a.subrange(0, k) =~= b.subrange(0, k));
                    if !less {
                        assert forall|m: int|
                            0 <= m < a.len() && m < b.len() && a[m] < b[m] implies a.subrange(0, m)
                            != b.subrange(0, m) by {
                            if m > k {
                                assert(a.subrange(0, m)[k] == a[k]);
                                assert(b.subrange(0, m)[k] == b[k]);
                            }
                        }
                    }
                }
                return less;
            }
            i += 1;
        }
        false
    }
}

/// The bit-wise order is total: of two different identities exactly one comes
/// before the other, and no identity comes before itself.
pub proof fn lemma_order_total(a: PeerIdentity, b: PeerIdentity)
    ensures
        a@ == b@ ==> !bytes_before(a@, b@) && !bytes_before(b@, a@),
        a@ != b@ ==> (bytes_before(a@, b@) != bytes_before(b@, a@)),
{
    let x = a@;
    let y = b@;
    a.lemma_len();
    b.lemma_len();
    if x != y {
        assert(!(x =~= y));
        let k = choose|k: int| 0 <= k < 32 && x[k] != y[k] && (forall|j: int| 0 <= j < k ==> x[j] == y[j]);
        lemma_first_difference(x, y, 32);
        assert(x.subrange(0, k) =~= y.subrange(0, k));
        assert(bytes_before(x, y) || bytes_before(y, x));
        if bytes_before(x, y) && bytes_before(y, x) {
            let i = choose|i: int|
                0 <= i < x.len() && i < y.len() && x[i] < y[i] && x.subrange(0, i) == y.subrange(0, i);
            let j = choose|j: int|
                0 <= j < y.len() && j < x.len() && y[j] < x[j] && y.subrange(0, j) == x.subrange(0, j);
            if i < j {
                assert(y.subrange(0, j)[i] == x.subrange(0, j)[i]);
            } else if j < i {
                assert(x.subrange(0, i)[j] == y.subrange(0, i)[j]);
            }
        }
    }
}

/// The bit-wise order is transitive.
pub proof fn lemma_order_transitive(a: PeerIdentity, b: PeerIdentity, c: PeerIdentity)
    requires
        bytes_before(a@, b@),
        bytes_before(b@, c@),
    ensures
        bytes_before(a@, c@),
{
    let x = a@;
    let y = b@;
    let z = c@;
    let i = choose|i: int|
        0 <= i < x.len() && i < y.len() && x[i] < y[i] && x.subrange(0, i) == y.subrange(0, i);
    let j = choose|j: int|
        0 <= j < y.len() && j < z.len() && y[j] < z[j] && y.subrange(0, j) == z.subrange(0, j);
    let k = if i < j {
        i
    } else {
        j
    };
    assert(x.subrange(0, k) =~= z.subrange(0, k)) by {
        assert forall|m: int| 0 <= m < k implies x[m] == z[m] by {
            assert(x.subrange(0, i)[m] == y.subrange(0, i)[m]);
            assert(y.subrange(0, j)[m] == z.subrange(0, j)[m]);
        }
    }
    if i < j {
        assert(y.subrange(0, j)[i] == z.subrange(0, j)[i]);
    } else if j < i {
        assert(x.subrange(0, i)[j] == y.subrange(0, i)[j]);
    }
    a.lemma_len();
    c.lemma_len();
    assert(0 <= k < x.len() && k < z.len() && x[k] < z[k] && x.subrange(0, k) == z.subrange(0, k));
}

/// Two different byte strings of length `n` have a first position where they
/// differ.
proof fn lemma_first_difference(x: Seq<u8>, y: Seq<u8>, n: int)
    requires
        x.len() == n,
        y.len() == n,
        x != y,
    ensures
        exists|k: int| 0 <= k < n && x[k] != y[k] && (forall|j: int| 0 <= j < k ==> x[j] == y[j]),
    decreases n,
{
    assert(!(x =~= y));
    if x[0] != y[0] {
        assert(0 <= 0 < n && x[0] != y[0] && (forall|j: int| 0 <= j < 0 ==> x[j] == y[j]));
    } else {
        let xs = x.subrange(1, n);
        let ys = y.subrange(1, n);
        if xs =~= ys {
            assert(x =~= y) by {
                assert forall|i: int| 0 <= i < n implies x[i] == y[i] by {
                    if i > 0 {
                        assert(xs[i - 1] == ys[i - 1]);
                    }
                }
            }
        }
        lemma_first_difference(xs, ys, n - 1);
        let k = choose|k: int|
            0 <= k < n - 1 && xs[k] != ys[k] && (forall|j: int| 0 <= j < k ==> xs[j] == ys[j]);
        assert forall|j: int| 0 <= j < k + 1 implies x[j] == y[j] by {
            if j > 0 {
                assert(xs[j - 1] == ys[j - 1]);
            }
        }
        assert(x[k + 1] != y[k + 1]);
    }
}

} // verus!
