//! Rolling one die, with its explosions.

use vstd::prelude::*;
use std::rc::Rc;
use crate::dice::{Die, Face};
use crate::random::{index_for, next_seed, Rng};
use crate::value::amount;
use crate::rollers::view::RollView;
use crate::rollers::{add_up, die_views_of, inner_results, rolled_faces_of, views_of, SubRoll};
use crate::share::share;
use crate::text::{join, natural_text};
use crate::value::Values;
use vstd::string::StringExecFns;

verus! {

/// The result of rolling a die that did not explode: the die and the face
/// that is up.
#[derive(Debug)]
pub struct DieRoll {
    pub die: Rc<Die>,
    pub face: Rc<Face>,
}

impl Clone for DieRoll {
    fn clone(&self) -> (r: Self)
        ensures
            r == *self,
    {
        DieRoll { die: share(&self.die), face: share(&self.face) }
    }
}

impl DieRoll {
    /// The model of the roll.
    pub open spec fn view(&self) -> RollView {
        RollView::Die { die: self.die.name@, face: self.face.label@, values: self.face.values@ }
    }

    /// The roll of `die` that shows `face`.
    pub fn new(die: Rc<Die>, face: Rc<Face>) -> (r: DieRoll)
        ensures
            r == (DieRoll { die, face }),
    {
        DieRoll { die, face }
    }

    /// The trace: the die and, in square brackets, the face.
    pub fn intermediate_results(&self) -> (s: String)
        ensures
            s@ == self.view().trace(),
    {
        self.to_string()
    }

    /// The final result: the listing of the totals.
    pub fn final_result(&self) -> (s: String)
        ensures
            s@ == self.view().final_text(),
    {
        self.totals().to_string()
    }

    /// A single die is always simple.
    pub fn is_simple(&self) -> (b: bool)
        ensures
            b,
            b == self.view().is_simple(),
    {
        true
    }

    /// The roll itself.
    pub fn rolled_faces(&self) -> (v: Vec<DieRoll>)
        ensures
            v@ == seq![*self],
            die_views_of(v@) == self.view().leaves(),
    {
        let mut out: Vec<DieRoll> = Vec::with_capacity(1);
        out.push(self.clone());
        out
    }

    /// The totals: what the face is worth.
    pub fn totals(&self) -> (v: Values)
        ensures
            v@ == self.view().totals(),
    {
        self.face.values.clone()
    }

    /// The die and, in square brackets, the face.
    pub fn to_string(&self) -> (s: String)
        ensures
            s@ == self.view().trace(),
    {
        let mut out = self.die.to_string();
        out.append(":[");
        out.append(self.face.to_string().as_str());
        out.append("]");
        out
    }
}

/// The result of rolling a die that exploded: the roll that triggered the
/// explosion and the rerolls that it caused directly. A reroll that exploded
/// in its turn is an `ExplodedRoll` itself.
#[derive(Debug)]
pub struct ExplodedRoll {
    pub triggering_roll: DieRoll,
    pub triggered_rolls: Vec<SubRoll>,
}

impl ExplodedRoll {
    /// The model of the roll.
    pub open spec fn view(&self) -> RollView {
        RollView::Exploded {
            trigger: Box::new(self.triggering_roll.view()),
            triggered: views_of(self.triggered_rolls@),
        }
    }

    /// An explosion of `trigger_roll` that has caused no reroll yet.
    pub fn new(trigger_roll: DieRoll) -> (r: ExplodedRoll)
        ensures
            r.triggering_roll == trigger_roll,
            r.triggered_rolls@ == Seq::<SubRoll>::empty(),
    {
        ExplodedRoll { triggering_roll: trigger_roll, triggered_rolls: Vec::new() }
    }

    /// Adds a reroll.
    pub fn push(&mut self, roll: SubRoll)
        ensures
            final(self).triggering_roll == old(self).triggering_roll,
            final(self).triggered_rolls@ == old(self).triggered_rolls@.push(roll),
    {
        self.triggered_rolls.push(roll);
    }

    /// The trace: the triggering roll, then the rerolls in round brackets.
    pub fn intermediate_results(&self) -> (s: String)
        ensures
            s@ == self.view().trace(),
        decreases self,
    {
        proof {
            crate::rollers::lemma_views_of(self.triggered_rolls@);
            let trigger = self.triggering_roll.view();
            assert(trigger.inner_trace() == trigger.trace());
        }
        if self.triggered_rolls.len() == 1 {
            let mut out = self.triggering_roll.intermediate_results();
            out.append(" => (exploded: ");
            out.append(self.triggered_rolls[0].inner_intermediate_results().as_str());
            out.append(")");
            out
        } else {
            let parts = inner_results(&self.triggered_rolls);
            let mut out = self.triggering_roll.intermediate_results();
            out.append(" => (exploded ");
            out.append(natural_text(self.triggered_rolls.len() as u64).as_str());
            out.append(" times: ");
            out.append(join(&parts, ", ").as_str());
            out.append(")");
            out
        }
    }

    /// The final result: the listing of the totals.
    pub fn final_result(&self) -> (s: String)
        ensures
            s@ == self.view().final_text(),
    {
        self.totals().to_string()
    }

    /// An explosion is never simple.
    pub fn is_simple(&self) -> (b: bool)
        ensures
            !b,
            b == self.view().is_simple(),
    {
        false
    }

    /// The triggering roll and the single dice of every reroll.
    pub fn rolled_faces(&self) -> (v: Vec<DieRoll>)
        ensures
            die_views_of(v@) == self.view().leaves(),
        decreases self,
    {
        let mut out = self.triggering_roll.rolled_faces();
        let mut more = rolled_faces_of(&self.triggered_rolls);
        out.append(&mut more);
        out
    }

    /// The totals: those of the triggering roll and of every reroll.
    pub fn totals(&self) -> (v: Values)
        ensures
            v@ == self.view().totals(),
        decreases self,
    {
        add_up(self.triggering_roll.totals(), &self.triggered_rolls)
    }
}

/// How many rerolls `face` causes on `die`: none when the die does not
/// explode or the face holds no amount for the triggering unit; else that
/// amount, and no reroll for an amount below 1.
pub open spec fn explosions(die: &Die, face: &Face) -> Option<nat> {
    match die.explode_on {
        Some(unit) => match amount(face.values@, unit.spec_id()) {
            Some(n) => Some(
                if n > 0 {
                    n as nat
                } else {
                    0
                },
            ),
            None => None,
        },
        None => None,
    }
}

/// What rolling `die` gives when the stream stands at `seed` and explosions
/// may still nest `depth` deep, and where the stream stands afterwards.
///
/// One number of the stream picks the face. A face that causes rerolls gives
/// an explosion, each reroll made in the same way one level deeper; at depth
/// 0 the face stands as it is.
pub open spec fn die_rolled(die: &Die, seed: u64, depth: nat) -> (RollView, u64)
    decreases depth, 0nat,
{
    let face = die.face_at(seed);
    let first = RollView::Die { die: die.name@, face: face.label@, values: face.values@ };
    match explosions(die, &face) {
        Some(count) => if depth > 0 {
            let (rerolls, after) = die_rerolled(die, next_seed(seed), (depth - 1) as nat, count);
            (RollView::Exploded { trigger: Box::new(first), triggered: rerolls }, after)
        } else {
            (first, next_seed(seed))
        },
        None => (first, next_seed(seed)),
    }
}

/// What `count` rolls of `die` in a row give, and where the stream stands
/// afterwards.
pub open spec fn die_rerolled(die: &Die, seed: u64, depth: nat, count: nat) -> (Seq<
    RollView,
>, u64)
    decreases depth, 1 + count,
{
    if count == 0 {
        (Seq::empty(), seed)
    } else {
        let (front, middle) = die_rerolled(die, seed, depth, (count - 1) as nat);
        let (roll, after) = die_rolled(die, middle, depth);
        (front.push(roll), after)
    }
}

impl DieRoll {
    /// Whether the face causes rerolls.
    pub fn should_explode(&self) -> (b: bool)
        ensures
            b == explosions(&*self.die, &*self.face) is Some,
    {
        match &self.die.explode_on {
            Some(explode_on) => self.face.value_for(explode_on).is_some(),
            None => false,
        }
    }

    /// Makes the rerolls that the face causes, each of which may explode
    /// `depth` deep in its turn.
    pub fn explode(self, rng: &mut Rng, depth: u8) -> (r: ExplodedRoll)
        requires
            self.die.wf(),
            explosions(&*self.die, &*self.face) is Some,
        ensures
            r.triggering_roll == self,
            (views_of(r.triggered_rolls@), final(rng).seed()) == die_rerolled(
                &*self.die,
                old(rng).seed(),
                depth as nat,
                explosions(&*self.die, &*self.face)->0,
            ),
        decreases depth, 1nat,
    {
        let num_explosions = match &self.die.explode_on {
            Some(explode_on) => self.face.value_for(explode_on).unwrap_or(0),
            None => 0,
        };
        let ghost count = explosions(&*self.die, &*self.face)->0;
        let die = share(&self.die);
        let mut output_roll = ExplodedRoll::new(self);
        let mut i: i32 = 0;
        while i < num_explosions
            invariant
                die.wf(),
                *die == *self.die,
                0 <= i,
                i <= num_explosions || i == 0,
                count == if num_explosions > 0 {
                    num_explosions as nat
                } else {
                    0
                },
                output_roll.triggering_roll == self,
                (views_of(output_roll.triggered_rolls@), rng.seed()) == die_rerolled(
                    &*die,
                    old(rng).seed(),
                    depth as nat,
                    i as nat,
                ),
            decreases num_explosions - i,
        {
            let roll = Die::roll_to_depth(&die, rng, depth);
            proof {
                let before = output_roll.triggered_rolls@;
                assert(before.push(roll).drop_last() =~= before);
            }
            output_roll.push(roll);
            i += 1;
        }
        output_roll
    }
}

impl Die {
    /// The description of the die: its name.
    pub fn description(&self) -> (s: String)
        ensures
            s@ == self.name@,
    {
        self.name.to_string()
    }

    /// A die is always simple.
    pub fn is_simple(&self) -> (b: bool)
        ensures
            b,
    {
        true
    }

    /// A die is the one roller that is a die.
    pub fn is_die(&self) -> (b: bool)
        ensures
            b,
    {
        true
    }

    /// The description as it stands inside another description: the name.
    pub fn inner_description(&self) -> (s: String)
        ensures
            s@ == self.name@,
    {
        self.description()
    }

    /// Rolls `die`, with explosions nesting at most `depth` deep.
    pub fn roll_to_depth(die: &Rc<Die>, rng: &mut Rng, depth: u8) -> (r: SubRoll)
        requires
            die.wf(),
        ensures
            (r.view(), final(rng).seed()) == die_rolled(&**die, old(rng).seed(), depth as nat),
        decreases depth, 0nat,
    {
        let face = die.roll_face_with(rng);
        let initial_roll = DieRoll::new(share(die), face);
        if depth > 0 && initial_roll.should_explode() {
            SubRoll::Exploded(initial_roll.explode(rng, depth - 1))
        } else {
            SubRoll::Die(initial_roll)
        }
    }

    /// Rolls `die`: draws a face, and where the face makes the die explode,
    /// the rerolls.
    pub fn inner_roll_with(die: &Rc<Die>, rng: &mut Rng) -> (r: SubRoll)
        requires
            die.wf(),
        ensures
            (r.view(), final(rng).seed()) == die_rolled(
                &**die,
                old(rng).seed(),
                die.explosion_depth as nat,
            ),
    {
        Self::roll_to_depth(die, rng, die.explosion_depth)
    }
}

/// A die that does not explode shows the face that the stream picks, and
/// takes one number from the stream: from a seed after which the stream picks
/// the first of two faces and then the second, the first roll has the totals
/// of the first face and the roll after it those of the second. What a roll
/// gives depends on the die and the seed alone, so the same seed gives the
/// same rolls again.
pub proof fn law_faces_follow_the_stream(die: &Die, seed: u64, depth: nat)
    requires
        die.faces@.len() == 2,
        die.explode_on is None,
        index_for(next_seed(seed), 2) == 0,
        index_for(next_seed(next_seed(seed)), 2) == 1,
    ensures
        die_rolled(die, seed, depth).0.totals() == die.faces@[0].values@,
        die_rolled(die, seed, depth).1 == next_seed(seed),
        die_rolled(die, die_rolled(die, seed, depth).1, depth).0.totals() == die.faces@[1].values@,
{
}

} // verus!
