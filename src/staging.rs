//! What a generated builder does at run time, over one value type `V`: a
//! staging structure with one optional slot per record field, setters that
//! overwrite a slot, and `build`, which checks the required slots and reads
//! the record out.
use vstd::prelude::*;
use crate::expand::BuildDef;

verus! {

/// One field of a record, as `build` sees it.
pub struct SlotLayout {
    pub name: String,
    /// The field was declared with the optional wrapper.
    pub optional: bool,
}

/// A field of a built record: a required field holds its value, an optional
/// one holds whatever the staging slot held.
#[derive(PartialEq, Eq, Structural, Clone, Copy, Debug)]
pub enum FieldValue<V> {
    Required(V),
    Optional(Option<V>),
}

/// The staging structure: slot `i` belongs to the record's field `i`.
pub struct Staging<V> {
    pub slots: Vec<Option<V>>,
}

/// The error message of `build` for a missing field.
pub open spec fn missing_message(name: Seq<char>) -> Seq<char> {
    name + " field missing"@
}

/// Slot `i` is required and still absent.
pub open spec fn is_missing<V>(slots: Seq<Option<V>>, layout: Seq<SlotLayout>, i: int) -> bool {
    !layout[i].optional && slots[i] is None
}

/// The first required slot, in declaration order, that is absent.
pub open spec fn first_missing<V>(slots: Seq<Option<V>>, layout: Seq<SlotLayout>, n: int) -> Option<
    int,
>
    decreases n,
{
    if n <= 0 {
        None
    } else {
        match first_missing(slots, layout, n - 1) {
            Some(j) => Some(j),
            None => if is_missing(slots, layout, n - 1) {
                Some(n - 1)
            } else {
                None
            },
        }
    }
}

/// The value that `build` reads out of slot `i` once every check passed.
pub open spec fn read_out<V>(slots: Seq<Option<V>>, layout: Seq<SlotLayout>, i: int) -> FieldValue<V> {
    if layout[i].optional {
        FieldValue::Optional(slots[i])
    } else {
        FieldValue::Required(slots[i]->0)
    }
}

/// What `build` returns on a staging structure whose slots are `slots`.
pub open spec fn build_result<V>(slots: Seq<Option<V>>, layout: Seq<SlotLayout>) -> Result<
    Seq<FieldValue<V>>,
    Seq<char>,
> {
    match first_missing(slots, layout, layout.len() as int) {
        Some(j) => Err(missing_message(layout[j].name@)),
        None => Ok(Seq::new(layout.len(), |i: int| read_out(slots, layout, i))),
    }
}

pub proof fn lemma_first_missing<V>(slots: Seq<Option<V>>, layout: Seq<SlotLayout>, n: int)
    requires
        0 <= n <= layout.len(),
        slots.len() == layout.len(),
    ensures
        first_missing(slots, layout, n) is None <==> forall|i: int|
            0 <= i < n ==> !is_missing(slots, layout, i),
        first_missing(slots, layout, n) matches Some(j) ==> 0 <= j < n && is_missing(
            slots,
            layout,
            j,
        ) && forall|i: int| 0 <= i < j ==> !is_missing(slots, layout, i),
    decreases n,
{
    if n > 0 {
        lemma_first_missing(slots, layout, n - 1);
    }
}

/// The run-time layout of a generated `build`: one slot per value clause,
/// optional exactly where the clause does not unwrap.
pub fn layout_of(build: &BuildDef) -> (r: Vec<SlotLayout>)
    ensures
        r@.len() == build.values@.len(),
        forall|i: int|
            0 <= i < r@.len() ==> r@[i].name == *build.values@[i].name && r@[i].optional
                == !build.values@[i].unwrap,
{
    let mut r: Vec<SlotLayout> = Vec::new();
    let mut i: usize = 0;
    while i < build.values.len()
        invariant
            i <= build.values@.len(),
            r@.len() == i,
            forall|j: int|
                0 <= j < i ==> r@[j].name == *build.values@[j].name && r@[j].optional
                    == !build.values@[j].unwrap,
        decreases build.values@.len() - i,
    {
        let c = &build.values[i];
        r.push(SlotLayout { name: c.name.clone(), optional: !c.unwrap });
        i = i + 1;
    }
    r
}

/// Setting the same slot twice leaves only the second value, and a
/// successful `build` reads that second value out.
pub proof fn law_last_write_wins<V>(
    slots: Seq<Option<V>>,
    layout: Seq<SlotLayout>,
    i: int,
    v1: V,
    v2: V,
)
    requires
        slots.len() == layout.len(),
        0 <= i < slots.len(),
    ensures
        slots.update(i, Some(v1)).update(i, Some(v2)) == slots.update(i, Some(v2)),
        build_result(slots.update(i, Some(v1)).update(i, Some(v2)), layout) == build_result(
            slots.update(i, Some(v2)),
            layout,
        ),
        build_result(slots.update(i, Some(v2)), layout) matches Ok(vals) ==> vals[i] == (if layout[i].optional {
            FieldValue::Optional(Some(v2))
        } else {
            FieldValue::Required(v2)
        }),
{
    assert(slots.update(i, Some(v1)).update(i, Some(v2)) =~= slots.update(i, Some(v2)));
}

/// While some required field is absent, `build` fails, and its message names
/// a required field that is absent.
pub proof fn law_missing_required_fails<V>(slots: Seq<Option<V>>, layout: Seq<SlotLayout>, i: int)
    requires
        slots.len() == layout.len(),
        0 <= i < layout.len(),
        is_missing(slots, layout, i),
    ensures
        build_result(slots, layout) is Err,
        exists|j: int|
            0 <= j < layout.len() && is_missing(slots, layout, j) && build_result(slots, layout)
                == Err::<Seq<FieldValue<V>>, Seq<char>>(missing_message(layout[j].name@)),
{
    lemma_first_missing(slots, layout, layout.len() as int);
    let j = first_missing(slots, layout, layout.len() as int)->0;
    assert(is_missing(slots, layout, j));
}

/// With every required field set, `build` succeeds whatever the optional
/// fields hold: required fields come out unwrapped, optional ones as the
/// staging structure holds them.
pub proof fn law_all_required_set_succeeds<V>(slots: Seq<Option<V>>, layout: Seq<SlotLayout>)
    requires
        slots.len() == layout.len(),
        forall|i: int| 0 <= i < layout.len() && !layout[i].optional ==> slots[i] is Some,
    ensures
        build_result(slots, layout) matches Ok(vals) && vals.len() == layout.len() && forall|i: int|
            0 <= i < layout.len() ==> vals[i] == (if layout[i].optional {
                FieldValue::Optional(slots[i])
            } else {
                FieldValue::Required(slots[i]->0)
            }),
{
    lemma_first_missing(slots, layout, layout.len() as int);
    assert forall|i: int| 0 <= i < layout.len() implies !is_missing(slots, layout, i) by {}
}

/// An optional field that was never set does not decide whether `build`
/// succeeds, and comes out absent.
pub proof fn law_unset_optional_exempt<V>(slots: Seq<Option<V>>, layout: Seq<SlotLayout>, i: int)
    requires
        slots.len() == layout.len(),
        0 <= i < layout.len(),
        layout[i].optional,
        slots[i] is None,
    ensures
        build_result(slots, layout) is Ok <==> forall|j: int|
            0 <= j < layout.len() && j != i && !layout[j].optional ==> slots[j] is Some,
        build_result(slots, layout) matches Ok(vals) ==> vals[i] == FieldValue::<V>::Optional(None),
{
    lemma_first_missing(slots, layout, layout.len() as int);
    if forall|j: int| 0 <= j < layout.len() && j != i && !layout[j].optional ==> slots[j] is Some {
        assert forall|j: int| 0 <= j < layout.len() implies !is_missing(slots, layout, j) by {}
    } else {
        let j = choose|j: int|
            !(0 <= j < layout.len() && j != i && !layout[j].optional ==> slots[j] is Some);
        assert(is_missing(slots, layout, j));
    }
}

impl<V: Copy> Staging<V> {
    /// A staging structure for `n` fields, every slot absent.
    pub fn new(n: usize) -> (r: Self)
        ensures
            r.slots@ == Seq::new(n as nat, |i: int| None::<V>),
    {
        let mut slots: Vec<Option<V>> = Vec::new();
        let mut i: usize = 0;
        while i < n
            invariant
                i <= n,
                slots@ == Seq::new(i as nat, |j: int| None::<V>),
            decreases n - i,
        {
            slots.push(None);
            i = i + 1;
            proof {
                assert(slots@ =~= Seq::new(i as nat, |j: int| None::<V>));
            }
        }
        Staging { slots }
    }

    /// Stores `v` in slot `i`, replacing what was there; returns the staging
    /// structure for further calls, whose final state is that of `self`.
    pub fn set(&mut self, i: usize, v: V) -> (r: &mut Self)
        requires
            i < old(self).slots@.len(),
        ensures
            r.slots@ == old(self).slots@.update(i as int, Some(v)),
            *final(self) == *final(r),
    {
        self.slots.set(i, Some(v));
        self
    }

    /// Checks the required slots in order and fails on the first absent one,
    /// naming its field; else reads every slot out. The staging structure is
    /// left as it was.
    pub fn build(&self, layout: &Vec<SlotLayout>) -> (r: Result<Vec<FieldValue<V>>, String>)
        requires
            self.slots@.len() == layout@.len(),
        ensures
            match r {
                Ok(v) => build_result(self.slots@, layout@) == Ok::<Seq<FieldValue<V>>, Seq<char>>(v@),
                Err(e) => build_result(self.slots@, layout@) == Err::<Seq<FieldValue<V>>, Seq<char>>(e@),
            },
    {
        let mut i: usize = 0;
        while i < layout.len()
            invariant
                i <= layout@.len(),
                self.slots@.len() == layout@.len(),
                first_missing(self.slots@, layout@, i as int) is None,
            decreases layout@.len() - i,
        {
            if !layout[i].optional && self.slots[i].is_none() {
                proof {
                    lemma_first_missing(self.slots@, layout@, layout@.len() as int);
                    lemma_first_missing(self.slots@, layout@, i as int);
                    lemma_first_missing(self.slots@, layout@, i + 1);
                }
                let msg = layout[i].name.clone().concat(" field missing");
                return Err(msg);
            }
            i = i + 1;
        }
        let mut out: Vec<FieldValue<V>> = Vec::new();
        let mut k: usize = 0;
        proof {
            assert(out@ =~= Seq::new(0, |j: int| read_out(self.slots@, layout@, j)));
        }
        while k < layout.len()
            invariant
                k <= layout@.len(),
                self.slots@.len() == layout@.len(),
                first_missing(self.slots@, layout@, layout@.len() as int) is None,
                out@ == Seq::new(k as nat, |j: int| read_out(self.slots@, layout@, j)),
            decreases layout@.len() - k,
        {
            proof {
                lemma_first_missing(self.slots@, layout@, layout@.len() as int);
                assert(!is_missing(self.slots@, layout@, k as int));
            }
            let x = if layout[k].optional {
                FieldValue::Optional(self.slots[k])
            } else {
                FieldValue::Required(self.slots[k].unwrap())
            };
            assert(x == read_out(self.slots@, layout@, k as int));
            out.push(x);
            k = k + 1;
            proof {
                assert(out@ =~= Seq::new(k as nat, |j: int| read_out(self.slots@, layout@, j)));
            }
        }
        proof {
            assert(out@ =~= Seq::new(layout@.len(), |j: int| read_out(self.slots@, layout@, j)));
        }
        Ok(out)
    }
}

} // verus!
