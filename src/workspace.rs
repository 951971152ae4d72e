use vstd::prelude::*;

verus! {

/// A compositor workspace split into its coordinates.
///
/// `workspace` and `monitor` count from 1, `group` counts from 0.
#[derive(Debug, Clone, Copy, PartialEq, Eq, Structural)]
pub struct Workspace {
    pub workspace: u64,
    pub monitor: u64,
    pub group: u64,
}

/// The zero-based number that the digits of an identifier are taken from:
/// one less than the identifier, wrapping around at zero.
pub open spec fn id_offset(id: u64) -> int {
    if id == 0 {
        u64::MAX as int
    } else {
        id - 1
    }
}

/// What `Workspace::from_id` gives for an identifier.
pub open spec fn decode(id: u64) -> Workspace {
    let k = id_offset(id);
    Workspace {
        workspace: (k % 10 + 1) as u64,
        monitor: ((k / 10) % 10 + 1) as u64,
        group: ((k / 100) % 10) as u64,
    }
}

/// The compositor identifier of a workspace.
pub open spec fn encode(w: Workspace) -> int {
    (w.workspace - 1) + 10 * (w.monitor - 1) + 100 * w.group + 1
}

/// A workspace whose identifier can be computed in a `u64`.
pub open spec fn encodable(w: Workspace) -> bool {
    w.workspace >= 1 && w.monitor >= 1 && encode(w) <= u64::MAX
}

/// A workspace within the coordinates the compositor uses.
pub open spec fn in_range(w: Workspace) -> bool {
    1 <= w.workspace <= 10 && 1 <= w.monitor <= 10 && w.group <= 9
}

impl Workspace {
    /// Splits an identifier into its coordinates, taking the last three
    /// decimal digits of the identifier less one. No identifier is refused.
    pub fn from_id(id: u64) -> (w: Workspace)
        ensures
            w == decode(id),
            in_range(w),
    {
        let mut k: u64 = id.wrapping_sub(1);
        assert(k == id_offset(id));
        let workspace: u64 = k % 10 + 1;
        k = k / 10;
        let monitor: u64 = k % 10 + 1;
        k = k / 10;
        let group: u64 = k % 10;
        assert(k == id_offset(id) / 100) by (nonlinear_arith)
            requires
                k == (id_offset(id) / 10) / 10,
        ;
        Workspace { workspace, monitor, group }
    }

    /// The compositor identifier of this workspace.
    pub fn to_id(&self) -> (id: u64)
        requires
            encodable(*self),
        ensures
            id == encode(*self),
    {
        (self.workspace - 1) + 10 * (self.monitor - 1) + 100 * self.group + 1
    }
}

/// Decoding the identifier of a workspace gives the workspace back.
pub proof fn lemma_decode_encode(w: Workspace)
    requires
        in_range(w),
    ensures
        encode(w) <= u64::MAX,
        decode(encode(w) as u64) == w,
{
    let k = encode(w) - 1;
    let a = w.workspace - 1;
    let b = w.monitor - 1;
    let c = w.group as int;
    assert(k == a + 10 * b + 100 * c);
    assert(k % 10 == a && k / 10 == b + 10 * c) by (nonlinear_arith)
        requires
            k == a + 10 * b + 100 * c,
            0 <= a < 10,
    ;
    assert((k / 10) % 10 == b && (k / 10) / 10 == c) by (nonlinear_arith)
        requires
            k / 10 == b + 10 * c,
            0 <= b < 10,
    ;
    assert(k / 100 == (k / 10) / 10) by (nonlinear_arith)
        requires
            k >= 0,
    ;
    assert(c % 10 == c);
}

/// Every identifier from 1 to 1000 is the identifier of what it decodes to.
pub proof fn lemma_encode_decode(id: u64)
    requires
        1 <= id <= 1000,
    ensures
        encode(decode(id)) == id,
{
    let k = id - 1;
    assert(k == k % 10 + 10 * ((k / 10) % 10) + 100 * ((k / 100) % 10)) by (nonlinear_arith)
        requires
            0 <= k < 1000,
    ;
}

} // verus!
