//! Several rollers rolled at once, each under a name, their results listed
//! and not combined.

use vstd::prelude::*;
use std::rc::Rc;
use crate::name::Name;
use crate::random::Rng;
use crate::rollers::view::RollView;
use crate::rollers::{Roll, Roller};
use crate::text::{decimal_digits, join, joined, views};
use vstd::string::StringExecFns;

verus! {

/// A roll of a roller that may hold several results: a composable roll, a
/// roll under a name, or a list of named rolls.
pub enum TopRollView {
    Sub(RollView),
    Named { name: Seq<char>, roll: Box<TopRollView> },
    Multi { entries: Seq<TopRollView> },
}

impl TopRollView {
    /// The trace of the roll; rolls of a list stand one to a line.
    pub open spec fn trace(self) -> Seq<char>
        decreases self,
    {
        match self {
            TopRollView::Sub(roll) => roll.trace(),
            TopRollView::Named { name, roll } => name + ": "@ + roll.trace(),
            TopRollView::Multi { entries } => joined(traces(entries), "\n"@),
        }
    }

    /// The final result of the roll; rolls of a list stand one to a line.
    pub open spec fn final_text(self) -> Seq<char>
        decreases self,
    {
        match self {
            TopRollView::Sub(roll) => roll.final_text(),
            TopRollView::Named { name, roll } => name + ": "@ + roll.final_text(),
            TopRollView::Multi { entries } => joined(final_texts(entries), "\n"@),
        }
    }
}

/// The traces of `rolls`.
pub open spec fn traces(rolls: Seq<TopRollView>) -> Seq<Seq<char>>
    decreases rolls,
{
    if rolls.len() == 0 {
        Seq::empty()
    } else {
        traces(rolls.drop_last()).push(rolls.last().trace())
    }
}

/// The final results of `rolls`.
pub open spec fn final_texts(rolls: Seq<TopRollView>) -> Seq<Seq<char>>
    decreases rolls,
{
    if rolls.len() == 0 {
        Seq::empty()
    } else {
        final_texts(rolls.drop_last()).push(rolls.last().final_text())
    }
}

/// A roller under a name.
///
/// The name may be a number: `numbered` takes the number as it is,
/// `for_index` adds one to an index that counts from 0.
#[derive(Debug)]
pub struct NamedRoller {
    pub name: Name,
    pub roller: Roller,
}

impl Clone for NamedRoller {
    fn clone(&self) -> (r: Self)
        ensures
            r == *self,
    {
        NamedRoller { name: self.name.clone(), roller: self.roller.clone() }
    }
}

impl NamedRoller {
    /// Whether the roller can be rolled.
    pub open spec fn wf(&self) -> bool
        decreases self,
    {
        self.roller.wf()
    }

    /// The description: the name, a colon and the description of the roller.
    pub open spec fn description_text(&self) -> Seq<char>
        decreases self,
    {
        self.name@ + ": "@ + self.roller.description_text()
    }

    /// What rolling gives when the stream stands at `seed`, and where the
    /// stream stands afterwards.
    pub open spec fn rolled(&self, seed: u64) -> (TopRollView, u64)
        decreases self,
    {
        (
            TopRollView::Named { name: self.name@, roll: Box::new(self.roller.rolled(seed).0) },
            self.roller.rolled(seed).1,
        )
    }

    /// `roller` under `name`.
    pub fn new(name: Name, roller: Roller) -> (r: NamedRoller)
        ensures
            r == (NamedRoller { name, roller }),
    {
        NamedRoller { name, roller }
    }

    /// `roller` under the number `idx + 1`.
    pub fn for_index(idx: usize, roller: Roller) -> (r: NamedRoller)
        requires
            idx < usize::MAX,
        ensures
            r.name@ == decimal_digits((idx + 1) as nat),
            r.roller == roller,
    {
        NamedRoller { name: Name::from_num(idx + 1), roller }
    }

    /// `roller` under the number `num`.
    pub fn numbered(num: usize, roller: Roller) -> (r: NamedRoller)
        ensures
            r.name@ == decimal_digits(num as nat),
            r.roller == roller,
    {
        NamedRoller { name: Name::from_num(num), roller }
    }

    /// A handle to the named roller.
    pub fn rc(self) -> (r: Rc<NamedRoller>)
        ensures
            *r == self,
    {
        Rc::new(self)
    }

    /// Whether the roller can be rolled.
    pub fn can_roll(&self) -> (b: bool)
        ensures
            b == self.wf(),
        decreases self,
    {
        self.roller.can_roll()
    }

    /// The description: the name, a colon and the description of the roller.
    pub fn description(&self) -> (s: String)
        ensures
            s@ == self.description_text(),
        decreases self,
    {
        let mut out = self.name.to_string();
        out.append(": ");
        out.append(self.roller.description().as_str());
        out
    }

    /// Rolls the roller on `rng` and puts the name to the roll.
    pub fn roll_with(&self, rng: &mut Rng) -> (r: NamedRoll)
        requires
            self.wf(),
        ensures
            (r.view(), final(rng).seed()) == self.rolled(old(rng).seed()),
        decreases self,
    {
        NamedRoll { name: self.name.clone(), roll: self.roller.roll_with(rng) }
    }
}

/// Whether each of `rollers` can be rolled.
pub open spec fn all_wf(rollers: Seq<NamedRoller>) -> bool
    decreases rollers,
{
    if rollers.len() == 0 {
        true
    } else {
        all_wf(rollers.drop_last()) && rollers.last().wf()
    }
}

/// The descriptions of `rollers`.
pub open spec fn descriptions(rollers: Seq<NamedRoller>) -> Seq<Seq<char>>
    decreases rollers,
{
    if rollers.len() == 0 {
        Seq::empty()
    } else {
        descriptions(rollers.drop_last()).push(rollers.last().description_text())
    }
}

/// What rolling `rollers` from first to last gives, and where the stream
/// stands afterwards.
pub open spec fn all_rolled(rollers: Seq<NamedRoller>, seed: u64) -> (Seq<TopRollView>, u64)
    decreases rollers,
{
    if rollers.len() == 0 {
        (Seq::empty(), seed)
    } else {
        let (front, middle) = all_rolled(rollers.drop_last(), seed);
        let (roll, after) = rollers.last().rolled(middle);
        (front.push(roll), after)
    }
}

/// The models of `rolls`.
pub open spec fn named_views_of(rolls: Seq<NamedRoll>) -> Seq<TopRollView>
    decreases rolls,
{
    if rolls.len() == 0 {
        Seq::empty()
    } else {
        named_views_of(rolls.drop_last()).push(rolls.last().view())
    }
}

/// A list of rollers can be rolled as far as each of them can.
pub proof fn lemma_all_wf(rollers: Seq<NamedRoller>)
    ensures
        all_wf(rollers) <==> forall|i: int| 0 <= i < rollers.len() ==> (#[trigger] rollers[i]).wf(),
    decreases rollers.len(),
{
    if rollers.len() > 0 {
        let front = rollers.drop_last();
        lemma_all_wf(front);
        if all_wf(rollers) {
            assert forall|i: int| 0 <= i < rollers.len() implies (#[trigger] rollers[i]).wf() by {
                if i < front.len() {
                    assert(front[i] == rollers[i]);
                }
            }
        } else if rollers.last().wf() {
            let i = choose|i: int| 0 <= i < front.len() && !(#[trigger] front[i]).wf();
        }
    }
}

/// Several rollers that are rolled at once, such as an attack and its
/// damage. Each stands under a name; `add_numbered` names a roller by its
/// place, counted from 1.
#[derive(Debug)]
pub struct MultiRoller {
    pub inner: Vec<NamedRoller>,
}

impl MultiRoller {
    /// Whether every roller of the list can be rolled.
    pub open spec fn wf(&self) -> bool
        decreases self,
    {
        all_wf(self.inner@)
    }

    /// The description: the descriptions of the rollers, one to a line.
    pub open spec fn description_text(&self) -> Seq<char>
        decreases self,
    {
        joined(descriptions(self.inner@), "\n"@)
    }

    /// What rolling gives when the stream stands at `seed`, and where the
    /// stream stands afterwards.
    pub open spec fn rolled(&self, seed: u64) -> (TopRollView, u64)
        decreases self,
    {
        (
            TopRollView::Multi { entries: all_rolled(self.inner@, seed).0 },
            all_rolled(self.inner@, seed).1,
        )
    }

    /// A handle to the list of these named rollers.
    pub fn new(inner: Vec<NamedRoller>) -> (r: Rc<MultiRoller>)
        ensures
            r.inner == inner,
    {
        Rc::new(MultiRoller { inner })
    }

    /// A handle to the list of `rollers`, each named by its place, counted
    /// from 1.
    pub fn new_numbered(rollers: Vec<Roller>) -> (r: Rc<MultiRoller>)
        ensures
            r.inner@.len() == rollers@.len(),
            forall|i: int|
                0 <= i < rollers@.len() ==> (#[trigger] r.inner@[i]).roller == rollers@[i]
                    && r.inner@[i].name@ == decimal_digits((i + 1) as nat),
    {
        let mut inner: Vec<NamedRoller> = Vec::with_capacity(rollers.len());
        let mut i: usize = 0;
        while i < rollers.len()
            invariant
                i <= rollers.len(),
                inner@.len() == i,
                forall|j: int|
                    0 <= j < i ==> (#[trigger] inner@[j]).roller == rollers@[j] && inner@[j].name@
                        == decimal_digits((j + 1) as nat),
            decreases rollers.len() - i,
        {
            inner.push(NamedRoller::for_index(i, rollers[i].clone()));
            i += 1;
        }
        Self::new(inner)
    }

    /// Adds a named roller at the end.
    pub fn add(&mut self, roller: NamedRoller)
        ensures
            final(self).inner@ == old(self).inner@.push(roller),
    {
        self.inner.push(roller);
    }

    /// Adds `roller` at the end, under `name`.
    pub fn add_with_name(&mut self, name: Name, roller: Roller)
        ensures
            final(self).inner@ == old(self).inner@.push(NamedRoller { name, roller }),
    {
        self.inner.push(NamedRoller::new(name, roller));
    }

    /// Adds `roller` at the end, named by its place, counted from 1.
    pub fn add_numbered(&mut self, roller: Roller)
        requires
            old(self).inner@.len() < usize::MAX,
        ensures
            final(self).inner@.len() == old(self).inner@.len() + 1,
            final(self).inner@.drop_last() == old(self).inner@,
            final(self).inner@.last().roller == roller,
            final(self).inner@.last().name@ == decimal_digits((old(self).inner@.len() + 1) as nat),
    {
        let named = NamedRoller::for_index(self.inner.len(), roller);
        self.inner.push(named);
    }

    /// Whether every roller of the list can be rolled.
    pub fn can_roll(&self) -> (b: bool)
        ensures
            b == self.wf(),
        decreases self,
    {
        let mut i: usize = 0;
        while i < self.inner.len()
            invariant
                i <= self.inner.len(),
                forall|j: int| 0 <= j < i ==> (#[trigger] self.inner@[j]).wf(),
            decreases self.inner.len() - i,
        {
            if !self.inner[i].can_roll() {
                proof {
                    lemma_all_wf(self.inner@);
                }
                return false;
            }
            i += 1;
        }
        proof {
            lemma_all_wf(self.inner@);
        }
        true
    }

    /// The description: the descriptions of the rollers, one to a line.
    pub fn description(&self) -> (s: String)
        ensures
            s@ == self.description_text(),
        decreases self,
    {
        let mut parts: Vec<String> = Vec::with_capacity(self.inner.len());
        let mut i: usize = 0;
        while i < self.inner.len()
            invariant
                i <= self.inner.len(),
                views(parts@) == descriptions(self.inner@.take(i as int)),
            decreases self.inner.len() - i,
        {
            let part = self.inner[i].description();
            proof {
                assert(self.inner@.take(i + 1).drop_last() =~= self.inner@.take(i as int));
            }
            parts.push(part);
            i += 1;
        }
        assert(self.inner@.take(self.inner.len() as int) =~= self.inner@);
        join(&parts, "\n")
    }

    /// Rolls every roller of the list on `rng`, from first to last.
    pub fn roll_with(&self, rng: &mut Rng) -> (r: MultiRoll)
        requires
            self.wf(),
        ensures
            (r.view(), final(rng).seed()) == self.rolled(old(rng).seed()),
        decreases self,
    {
        let mut rolls: Vec<NamedRoll> = Vec::with_capacity(self.inner.len());
        let mut i: usize = 0;
        proof {
            lemma_all_wf(self.inner@);
        }
        while i < self.inner.len()
            invariant
                i <= self.inner.len(),
                forall|j: int| 0 <= j < self.inner@.len() ==> (#[trigger] self.inner@[j]).wf(),
                (named_views_of(rolls@), rng.seed()) == all_rolled(
                    self.inner@.take(i as int),
                    old(rng).seed(),
                ),
            decreases self.inner.len() - i,
        {
            let roll = self.inner[i].roll_with(rng);
            proof {
                assert(self.inner@.take(i + 1).drop_last() =~= self.inner@.take(i as int));
                assert(rolls@.push(roll).drop_last() =~= rolls@);
            }
            rolls.push(roll);
            i += 1;
        }
        assert(self.inner@.take(self.inner.len() as int) =~= self.inner@);
        MultiRoll { inner: rolls }
    }
}

/// A roll under a name.
#[derive(Debug)]
pub struct NamedRoll {
    pub name: Name,
    pub roll: Roll,
}

impl NamedRoll {
    /// The model of the roll.
    pub open spec fn view(&self) -> TopRollView
        decreases self,
    {
        TopRollView::Named { name: self.name@, roll: Box::new(self.roll.view()) }
    }

    /// The trace: the name, a colon and the trace of the roll.
    pub fn intermediate_results(&self) -> (s: String)
        ensures
            s@ == self.view().trace(),
        decreases self,
    {
        let mut out = self.name.to_string();
        out.append(": ");
        out.append(self.roll.intermediate_results().as_str());
        out
    }

    /// The final result: the name, a colon and the final result of the roll.
    pub fn final_result(&self) -> (s: String)
        ensures
            s@ == self.view().final_text(),
        decreases self,
    {
        let mut out = self.name.to_string();
        out.append(": ");
        out.append(self.roll.final_result().as_str());
        out
    }
}

/// The rolls of a list of named rollers, in their order.
#[derive(Debug)]
pub struct MultiRoll {
    pub inner: Vec<NamedRoll>,
}

impl MultiRoll {
    /// The model of the roll.
    pub open spec fn view(&self) -> TopRollView
        decreases self,
    {
        TopRollView::Multi { entries: named_views_of(self.inner@) }
    }

    /// The roll in a box.
    pub fn boxed(self) -> (r: Box<MultiRoll>)
        ensures
            *r == self,
    {
        Box::new(self)
    }

    /// The trace: the traces of the rolls, one to a line.
    pub fn intermediate_results(&self) -> (s: String)
        ensures
            s@ == self.view().trace(),
        decreases self,
    {
        let mut parts: Vec<String> = Vec::with_capacity(self.inner.len());
        let mut i: usize = 0;
        let ghost all = named_views_of(self.inner@);
        proof {
            lemma_named_views_of(self.inner@);
        }
        while i < self.inner.len()
            invariant
                i <= self.inner.len(),
                all == named_views_of(self.inner@),
                all.len() == self.inner@.len(),
                forall|j: int| 0 <= j < all.len() ==> (#[trigger] all[j]) == self.inner@[j].view(),
                views(parts@) == traces(all.take(i as int)),
            decreases self.inner.len() - i,
        {
            let part = self.inner[i].intermediate_results();
            proof {
                assert(all.take(i + 1).drop_last() =~= all.take(i as int));
            }
            parts.push(part);
            i += 1;
        }
        assert(all.take(self.inner.len() as int) =~= all);
        join(&parts, "\n")
    }

    /// The final result: the final results of the rolls, one to a line.
    pub fn final_result(&self) -> (s: String)
        ensures
            s@ == self.view().final_text(),
        decreases self,
    {
        let mut parts: Vec<String> = Vec::with_capacity(self.inner.len());
        let mut i: usize = 0;
        let ghost all = named_views_of(self.inner@);
        proof {
            lemma_named_views_of(self.inner@);
        }
        while i < self.inner.len()
            invariant
                i <= self.inner.len(),
                all == named_views_of(self.inner@),
                all.len() == self.inner@.len(),
                forall|j: int| 0 <= j < all.len() ==> (#[trigger] all[j]) == self.inner@[j].view(),
                views(parts@) == final_texts(all.take(i as int)),
            decreases self.inner.len() - i,
        {
            let part = self.inner[i].final_result();
            proof {
                assert(all.take(i + 1).drop_last() =~= all.take(i as int));
            }
            parts.push(part);
            i += 1;
        }
        assert(all.take(self.inner.len() as int) =~= all);
        join(&parts, "\n")
    }
}

/// The models of a list are the models of its rolls, place by place.
pub proof fn lemma_named_views_of(rolls: Seq<NamedRoll>)
    ensures
        named_views_of(rolls).len() == rolls.len(),
        forall|i: int|
            0 <= i < rolls.len() ==> (#[trigger] named_views_of(rolls)[i]) == rolls[i].view(),
    decreases rolls.len(),
{
    if rolls.len() > 0 {
        lemma_named_views_of(rolls.drop_last());
    }
}

} // verus!
