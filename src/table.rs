use vstd::prelude::*;
use bevy::utils::HashMap;
use crate::sequence::SpritesheetAnimation;

verus! {

/// The animations of one entity, by state name. Built once, then only read.
#[verifier::external_body]
pub struct AnimationTable {
    states: HashMap<String, SpritesheetAnimation>,
}

/// The animations that a table holds, by state name.
pub uninterp spec fn table_states(t: AnimationTable) -> Map<Seq<char>, SpritesheetAnimation>;

/// Relies on bevy's `HashMap` (a hashbrown map) being empty when made by
/// `default`.
#[verifier::external_body]
fn empty_states() -> (r: AnimationTable)
    ensures
        forall|k: Seq<char>| !#[trigger] table_states(r).contains_key(k),
{
    AnimationTable { states: HashMap::default() }
}

/// Relies on hashbrown's `HashMap::insert`: the value under an equal key is
/// replaced, other keys keep theirs. `String` keys are equal when their
/// characters are.
#[verifier::external_body]
fn insert_state(t: &mut AnimationTable, name: String, anim: SpritesheetAnimation)
    ensures
        table_states(*final(t)) == table_states(*old(t)).insert(name@, anim),
{
    t.states.insert(name, anim);
}

/// Relies on hashbrown's `HashMap::get`: the value under a key equal to
/// `name`, if there is one.
#[verifier::external_body]
fn get_state<'a>(t: &'a AnimationTable, name: &String) -> (r: Option<&'a SpritesheetAnimation>)
    ensures
        match r {
            Some(a) => table_states(*t).contains_key(name@) && *a == table_states(*t)[name@],
            None => !table_states(*t).contains_key(name@),
        },
{
    t.states.get(name)
}

impl AnimationTable {
    pub open spec fn view(&self) -> Map<Seq<char>, SpritesheetAnimation> {
        table_states(*self)
    }

    /// Every animation in the table has frame identifiers that address cells.
    pub open spec fn wf(&self) -> bool {
        forall|k: Seq<char>| #[trigger] self@.contains_key(k) ==> self@[k].wf()
    }

    /// A table with no animation.
    pub fn new() -> (r: Self)
        ensures
            r@ == Map::<Seq<char>, SpritesheetAnimation>::empty(),
            r.wf(),
    {
        let r = empty_states();
        assert(r@ =~= Map::<Seq<char>, SpritesheetAnimation>::empty());
        r
    }

    /// Adds the animation under `name`, in place of one already there.
    pub fn insert(&mut self, name: String, anim: SpritesheetAnimation)
        requires
            old(self).wf(),
            anim.wf(),
        ensures
            final(self)@ == old(self)@.insert(name@, anim),
            final(self).wf(),
    {
        let ghost key = name@;
        insert_state(self, name, anim);
        assert forall|k: Seq<char>| #[trigger] self@.contains_key(k) implies self@[k].wf() by {
            if k != key {
                assert(old(self)@.contains_key(k));
            }
        }
    }

    /// The animation under `name`, if there is one.
    pub fn get(&self, name: &String) -> (r: Option<&SpritesheetAnimation>)
        ensures
            match r {
                Some(a) => self@.contains_key(name@) && *a == self@[name@],
                None => !self@.contains_key(name@),
            },
    {
        get_state(self, name)
    }

    /// Whether the table has an animation under `name`.
    pub fn contains(&self, name: &String) -> (r: bool)
        ensures
            r == self@.contains_key(name@),
    {
        self.get(name).is_some()
    }
}

} // verus!
