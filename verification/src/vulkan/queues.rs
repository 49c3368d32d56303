//! Choice of the queue families used for graphics, presentation,
//! compute and transfer work.

use vstd::prelude::*;

verus! {

/// Queue capability bit for graphics work.
pub const QUEUE_GRAPHICS_BIT: u32 = 0x1;

/// Queue capability bit for compute work.
pub const QUEUE_COMPUTE_BIT: u32 = 0x2;

/// Queue capability bit for transfer work.
pub const QUEUE_TRANSFER_BIT: u32 = 0x4;

/// What a physical device reports about one of its queue families.
#[derive(Clone, Copy, Debug, PartialEq, Eq, Structural)]
pub struct QueueFamilyInfo {
    /// Capability bits of the family.
    pub flags: u32,
    /// Whether the family can present to the target surface.
    pub supports_present: bool,
}

impl QueueFamilyInfo {
    pub open spec fn graphics(self) -> bool {
        self.flags & QUEUE_GRAPHICS_BIT != 0
    }

    pub open spec fn compute(self) -> bool {
        self.flags & QUEUE_COMPUTE_BIT != 0
    }

    pub open spec fn transfer(self) -> bool {
        self.flags & QUEUE_TRANSFER_BIT != 0
    }
}

/// Queue family indices selected for a device.
#[derive(Clone, Copy, Debug, PartialEq, Eq, Structural)]
pub struct QueueFamilyIndices {
    pub graphics: u32,
    pub present: u32,
    pub compute: u32,
    pub transfer: u32,
}

/// Index of the first of the first `n` families that satisfies `pred`.
pub open spec fn first_among(
    families: Seq<QueueFamilyInfo>,
    pred: spec_fn(QueueFamilyInfo) -> bool,
    n: nat,
) -> Option<u32>
    decreases n,
{
    if n == 0 {
        None
    } else {
        match first_among(families, pred, (n - 1) as nat) {
            Some(i) => Some(i),
            None => if pred(families[n - 1]) {
                Some((n - 1) as u32)
            } else {
                None
            },
        }
    }
}

/// Index of the first family that satisfies `pred`.
pub open spec fn first_where(
    families: Seq<QueueFamilyInfo>,
    pred: spec_fn(QueueFamilyInfo) -> bool,
) -> Option<u32> {
    first_among(families, pred, families.len())
}

/// `a` when it is present, else `b`.
pub open spec fn or_else(a: Option<u32>, b: Option<u32>) -> Option<u32> {
    match a {
        Some(x) => Some(x),
        None => b,
    }
}

pub open spec fn is_graphics() -> spec_fn(QueueFamilyInfo) -> bool {
    |f: QueueFamilyInfo| f.graphics()
}

pub open spec fn is_present() -> spec_fn(QueueFamilyInfo) -> bool {
    |f: QueueFamilyInfo| f.supports_present
}

pub open spec fn is_graphics_present() -> spec_fn(QueueFamilyInfo) -> bool {
    |f: QueueFamilyInfo| f.graphics() && f.supports_present
}

pub open spec fn is_compute() -> spec_fn(QueueFamilyInfo) -> bool {
    |f: QueueFamilyInfo| f.compute()
}

pub open spec fn is_compute_only() -> spec_fn(QueueFamilyInfo) -> bool {
    |f: QueueFamilyInfo| f.compute() && !f.graphics()
}

pub open spec fn is_transfer() -> spec_fn(QueueFamilyInfo) -> bool {
    |f: QueueFamilyInfo| f.transfer()
}

pub open spec fn is_transfer_non_graphics() -> spec_fn(QueueFamilyInfo) -> bool {
    |f: QueueFamilyInfo| f.transfer() && !f.graphics()
}

pub open spec fn is_transfer_only() -> spec_fn(QueueFamilyInfo) -> bool {
    |f: QueueFamilyInfo| f.transfer() && !f.graphics() && !f.compute()
}

/// Graphics family: the first graphics family that can present, else the
/// first graphics family.
pub open spec fn chosen_graphics(s: Seq<QueueFamilyInfo>) -> Option<u32> {
    or_else(first_where(s, is_graphics_present()), first_where(s, is_graphics()))
}

/// Present family: the first graphics family that can present, else the
/// first family that can present.
pub open spec fn chosen_present(s: Seq<QueueFamilyInfo>) -> Option<u32> {
    or_else(first_where(s, is_graphics_present()), first_where(s, is_present()))
}

/// Compute family: the first compute family without graphics, else the
/// first compute family.
pub open spec fn chosen_compute(s: Seq<QueueFamilyInfo>) -> Option<u32> {
    or_else(first_where(s, is_compute_only()), first_where(s, is_compute()))
}

/// Transfer family, most dedicated first, falling back to the compute and
/// then the graphics family.
pub open spec fn chosen_transfer(s: Seq<QueueFamilyInfo>) -> Option<u32> {
    or_else(
        first_where(s, is_transfer_only()),
        or_else(
            first_where(s, is_transfer_non_graphics()),
            or_else(
                first_where(s, is_transfer()),
                or_else(chosen_compute(s), chosen_graphics(s)),
            ),
        ),
    )
}

/// The selection: present only when every role has a family and the
/// graphics and present roles share one.
pub open spec fn spec_select_queue_families(s: Seq<QueueFamilyInfo>) -> Option<QueueFamilyIndices> {
    match (chosen_graphics(s), chosen_present(s), chosen_compute(s), chosen_transfer(s)) {
        (Some(graphics), Some(present), Some(compute), Some(transfer)) => if graphics == present {
            Some(QueueFamilyIndices { graphics, present, compute, transfer })
        } else {
            None
        },
        _ => None,
    }
}

fn exec_or(a: Option<u32>, b: Option<u32>) -> (r: Option<u32>)
    ensures
        r == or_else(a, b),
{
    match a {
        Some(x) => Some(x),
        None => b,
    }
}

/// Chooses queue families for graphics, presentation, compute and transfer
/// from the families a device reports, in order.
pub fn select_queue_families(families: &[QueueFamilyInfo]) -> (chosen: Option<QueueFamilyIndices>)
    requires
        families@.len() <= u32::MAX,
    ensures
        chosen == spec_select_queue_families(families@),
{
    let ghost s = families@;
    let mut graphics: Option<u32> = None;
    let mut graphics_present: Option<u32> = None;
    let mut present: Option<u32> = None;
    let mut compute: Option<u32> = None;
    let mut compute_is_non_graphics = false;
    let mut transfer_only: Option<u32> = None;
    let mut transfer_non_graphics: Option<u32> = None;
    let mut transfer_any: Option<u32> = None;
    let mut index: usize = 0;
    while index < families.len()
        invariant
            s == families@,
            s.len() <= u32::MAX,
            0 <= index <= s.len(),
            graphics == first_among(s, is_graphics(), index as nat),
            graphics_present == first_among(s, is_graphics_present(), index as nat),
            present == first_among(s, is_present(), index as nat),
            compute == or_else(
                first_among(s, is_compute_only(), index as nat),
                first_among(s, is_compute(), index as nat),
            ),
            compute_is_non_graphics == first_among(s, is_compute_only(), index as nat).is_some(),
            compute.is_none() == first_among(s, is_compute(), index as nat).is_none(),
            transfer_only == first_among(s, is_transfer_only(), index as nat),
            transfer_non_graphics == first_among(s, is_transfer_non_graphics(), index as nat),
            transfer_any == first_among(s, is_transfer(), index as nat),
        decreases s.len() - index,
    {
        let family = families[index];
        let i = index as u32;
        let has_graphics = family.flags & QUEUE_GRAPHICS_BIT != 0;
        let has_compute = family.flags & QUEUE_COMPUTE_BIT != 0;
        let has_transfer = family.flags & QUEUE_TRANSFER_BIT != 0;
        assert(s[index as int] == family);
        if has_graphics && graphics.is_none() {
            graphics = Some(i);
        }
        if has_compute {
            let non_graphics = !has_graphics;
            if compute.is_none() || (non_graphics && !compute_is_non_graphics) {
                compute = Some(i);
                compute_is_non_graphics = non_graphics;
            }
        }
        if has_transfer {
            if transfer_any.is_none() {
                transfer_any = Some(i);
            }
            if !has_graphics && transfer_non_graphics.is_none() {
                transfer_non_graphics = Some(i);
            }
            if !has_graphics && !has_compute && transfer_only.is_none() {
                transfer_only = Some(i);
            }
        }
        if family.supports_present {
            if present.is_none() {
                present = Some(i);
            }
            if has_graphics && graphics_present.is_none() {
                graphics_present = Some(i);
            }
        }
        index = index + 1;
    }
    let graphics = exec_or(graphics_present, graphics);
    let present = exec_or(graphics_present, present);
    let transfer = exec_or(
        transfer_only,
        exec_or(transfer_non_graphics, exec_or(transfer_any, exec_or(compute, graphics))),
    );
    match (graphics, present, compute, transfer) {
        (Some(graphics), Some(present), Some(compute), Some(transfer)) => {
            if graphics == present {
                Some(QueueFamilyIndices { graphics, present, compute, transfer })
            } else {
                None
            }
        },
        _ => None,
    }
}

/// The first family among the first `n` that has a property has it, and
/// lies among them.
proof fn lemma_first_among_has(
    families: Seq<QueueFamilyInfo>,
    pred: spec_fn(QueueFamilyInfo) -> bool,
    n: nat,
)
    requires
        n <= families.len(),
        families.len() <= u32::MAX,
    ensures
        match first_among(families, pred, n) {
            Some(i) => i < n && pred(families[i as int]) && forall|j: int|
                0 <= j < i ==> !pred(#[trigger] families[j]),
            None => forall|j: int| 0 <= j < n ==> !pred(#[trigger] families[j]),
        },
    decreases n,
{
    if n > 0 {
        lemma_first_among_has(families, pred, (n - 1) as nat);
    }
}

/// Every selected family exists on the device and can do its job: the
/// graphics family, which also presents, supports graphics and
/// presentation, the compute family supports compute, and the transfer
/// family supports transfer, compute or graphics.
pub proof fn lemma_selected_families_capable(families: Seq<QueueFamilyInfo>)
    requires
        families.len() <= u32::MAX,
        spec_select_queue_families(families) is Some,
    ensures
        ({
            let chosen = spec_select_queue_families(families)->0;
            &&& chosen.graphics == chosen.present
            &&& chosen.graphics < families.len()
            &&& chosen.compute < families.len()
            &&& chosen.transfer < families.len()
            &&& families[chosen.graphics as int].graphics()
            &&& families[chosen.present as int].supports_present
            &&& families[chosen.compute as int].compute()
            &&& (families[chosen.transfer as int].transfer() || families[chosen.transfer as int].compute()
                || families[chosen.transfer as int].graphics())
        }),
{
    let n = families.len();
    lemma_first_among_has(families, is_graphics_present(), n);
    lemma_first_among_has(families, is_graphics(), n);
    lemma_first_among_has(families, is_present(), n);
    lemma_first_among_has(families, is_compute_only(), n);
    lemma_first_among_has(families, is_compute(), n);
    lemma_first_among_has(families, is_transfer_only(), n);
    lemma_first_among_has(families, is_transfer_non_graphics(), n);
    lemma_first_among_has(families, is_transfer(), n);
    let chosen = spec_select_queue_families(families)->0;
    let g = chosen_graphics(families)->0;
    let gp = first_where(families, is_graphics_present());
    if gp is None {
        let pr = first_where(families, is_present())->0;
        assert(is_present()(families[pr as int]));
        assert(is_graphics()(families[g as int]));
        assert(g == pr);
        assert(is_graphics_present()(families[g as int]));
        assert(false);
    }
}

/// The transfer role prefers families that do transfer work without
/// graphics: the first family that does only transfer work when there is
/// one, and otherwise the first transfer-capable family without graphics.
pub proof fn lemma_transfer_family_avoids_graphics(families: Seq<QueueFamilyInfo>)
    requires
        families.len() <= u32::MAX,
        spec_select_queue_families(families) is Some,
        exists|j: int| 0 <= j < families.len() && (#[trigger] families[j]).transfer() && !families[j].graphics(),
    ensures
        ({
            let t = spec_select_queue_families(families)->0.transfer as int;
            &&& 0 <= t < families.len()
            &&& families[t].transfer()
            &&& !families[t].graphics()
            &&& (exists|j: int| 0 <= j < families.len() && (#[trigger] families[j]).transfer() && !families[j].graphics() && !families[j].compute())
                ==> !families[t].compute() && forall|j: int| 0 <= j < t ==> !((#[trigger] families[j]).transfer() && !families[j].graphics() && !families[j].compute())
            &&& !(exists|j: int| 0 <= j < families.len() && (#[trigger] families[j]).transfer() && !families[j].graphics() && !families[j].compute())
                ==> forall|j: int| 0 <= j < t ==> !((#[trigger] families[j]).transfer() && !families[j].graphics())
        }),
{
    let n = families.len();
    lemma_first_among_has(families, is_transfer_only(), n);
    lemma_first_among_has(families, is_transfer_non_graphics(), n);
    let j0 = choose|j: int| 0 <= j < families.len() && (#[trigger] families[j]).transfer() && !families[j].graphics();
    assert(is_transfer_non_graphics()(families[j0]));
    if exists|j: int| 0 <= j < families.len() && (#[trigger] families[j]).transfer() && !families[j].graphics() && !families[j].compute() {
        let j1 = choose|j: int| 0 <= j < families.len() && (#[trigger] families[j]).transfer() && !families[j].graphics() && !families[j].compute();
        assert(is_transfer_only()(families[j1]));
        let t = first_where(families, is_transfer_only())->0 as int;
        assert forall|j: int| 0 <= j < t implies !((#[trigger] families[j]).transfer() && !families[j].graphics() && !families[j].compute()) by {
            assert(!is_transfer_only()(families[j]));
        }
    } else {
        assert forall|j: int| 0 <= j < n implies !is_transfer_only()(#[trigger] families[j]) by {}
        let t = first_where(families, is_transfer_non_graphics())->0 as int;
        assert forall|j: int| 0 <= j < t implies !((#[trigger] families[j]).transfer() && !families[j].graphics()) by {
            assert(!is_transfer_non_graphics()(families[j]));
        }
    }
}

/// The compute role goes to the first compute family without graphics when
/// there is one, else to the first compute family; the graphics role, which
/// also presents, goes to the first family that does both.
pub proof fn lemma_compute_and_graphics_families(families: Seq<QueueFamilyInfo>)
    requires
        families.len() <= u32::MAX,
        spec_select_queue_families(families) is Some,
    ensures
        ({
            let chosen = spec_select_queue_families(families)->0;
            let c = chosen.compute as int;
            let g = chosen.graphics as int;
            &&& families[c].compute()
            &&& (exists|j: int| 0 <= j < families.len() && (#[trigger] families[j]).compute() && !families[j].graphics())
                ==> !families[c].graphics() && forall|j: int| 0 <= j < c ==> !((#[trigger] families[j]).compute() && !families[j].graphics())
            &&& !(exists|j: int| 0 <= j < families.len() && (#[trigger] families[j]).compute() && !families[j].graphics())
                ==> forall|j: int| 0 <= j < c ==> !(#[trigger] families[j]).compute()
            &&& families[g].graphics() && families[g].supports_present
            &&& forall|j: int| 0 <= j < g ==> !((#[trigger] families[j]).graphics() && families[j].supports_present)
        }),
{
    let n = families.len();
    lemma_selected_families_capable(families);
    lemma_first_among_has(families, is_compute_only(), n);
    lemma_first_among_has(families, is_compute(), n);
    lemma_first_among_has(families, is_graphics_present(), n);
    lemma_first_among_has(families, is_graphics(), n);
    lemma_first_among_has(families, is_present(), n);
    let chosen = spec_select_queue_families(families)->0;
    let c = chosen.compute as int;
    let g = chosen.graphics as int;
    if exists|j: int| 0 <= j < families.len() && (#[trigger] families[j]).compute() && !families[j].graphics() {
        let j1 = choose|j: int| 0 <= j < families.len() && (#[trigger] families[j]).compute() && !families[j].graphics();
        assert(is_compute_only()(families[j1]));
        assert forall|j: int| 0 <= j < c implies !((#[trigger] families[j]).compute() && !families[j].graphics()) by {
            assert(!is_compute_only()(families[j]));
        }
    } else {
        assert forall|j: int| 0 <= j < n implies !is_compute_only()(#[trigger] families[j]) by {}
        assert forall|j: int| 0 <= j < c implies !(#[trigger] families[j]).compute() by {
            assert(!is_compute()(families[j]));
        }
    }
    assert(is_graphics_present()(families[g])) by {
        if first_where(families, is_graphics_present()) is None {
            let pr = first_where(families, is_present())->0;
            assert(is_present()(families[pr as int]));
            assert(is_graphics()(families[g]));
            assert(false);
        }
    }
    assert forall|j: int| 0 <= j < g implies !((#[trigger] families[j]).graphics() && families[j].supports_present) by {
        assert(!is_graphics_present()(families[j]));
    }
}

} // verus!
