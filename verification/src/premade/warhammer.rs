//! The dice of Warhammer Fantasy Roleplay, third edition.

use vstd::prelude::*;
use std::rc::Rc;
use crate::dice::{Die, Face};
use crate::premade::{
    has_faces, lemma_ascii_name, name, one, shows, two, writes_one, writes_three, writes_two,
    FaceSpec,
};
use crate::random::new_id;
use crate::share::share;
use crate::units::{BasicUnit, TieredUnit, Unit};
use crate::value::Value;
use vstd::string::StringExecFns;

verus! {

/// A challenge: a success less.
pub open spec fn challenged_face(success: Rc<Unit>) -> FaceSpec {
    ("Challenge"@, one(success, -1i32))
}

/// Two challenges.
pub open spec fn challenged_x2_face(success: Rc<Unit>) -> FaceSpec {
    ("Challenge x2"@, one(success, -2i32))
}

/// A success.
pub open spec fn succeeded_face(success: Rc<Unit>) -> FaceSpec {
    ("Success"@, one(success, 1i32))
}

/// Two successes.
pub open spec fn succeeded_x2_face(success: Rc<Unit>) -> FaceSpec {
    ("Success x2"@, one(success, 2i32))
}

/// A success and a boon.
pub open spec fn succ_boon_face(success: Rc<Unit>, boon: Rc<Unit>) -> FaceSpec {
    ("Success + Boon"@, two(success, 1i32, boon, 1i32))
}

/// A success and a delay.
pub open spec fn succ_delay_face(success: Rc<Unit>, delay: Rc<Unit>) -> FaceSpec {
    ("Success + Delay"@, two(success, 1i32, delay, 1i32))
}

/// A success and an exertion.
pub open spec fn succ_exert_face(success: Rc<Unit>, exertion: Rc<Unit>) -> FaceSpec {
    ("Success + Exertion"@, two(success, 1i32, exertion, 1i32))
}

/// A success and another roll of an expertise die.
pub open spec fn righteous_face(success: Rc<Unit>, reroll: Rc<Unit>) -> FaceSpec {
    ("Righteous Success"@, two(success, 1i32, reroll, 1i32))
}

/// A bane: a boon less.
pub open spec fn bane_face(boon: Rc<Unit>) -> FaceSpec {
    ("Bane"@, one(boon, -1i32))
}

/// Two banes.
pub open spec fn bane_x2_face(boon: Rc<Unit>) -> FaceSpec {
    ("Bane x2"@, one(boon, -2i32))
}

/// A boon.
pub open spec fn booned_face(boon: Rc<Unit>) -> FaceSpec {
    ("Boon"@, one(boon, 1i32))
}

/// Two boons.
pub open spec fn booned_x2_face(boon: Rc<Unit>) -> FaceSpec {
    ("Boon x2"@, one(boon, 2i32))
}

/// A chaos star.
pub open spec fn chaos_star_face(star: Rc<Unit>) -> FaceSpec {
    ("Chaos Star"@, one(star, 1i32))
}

/// A comet of Sigmar.
pub open spec fn sigmars_comet_face(comet: Rc<Unit>) -> FaceSpec {
    ("Sigmar's Comet"@, one(comet, 1i32))
}

/// A blank side.
pub open spec fn blank_face(success: Rc<Unit>) -> FaceSpec {
    ("_"@, one(success, 0i32))
}

/// The sides of the Characteristic die of Warhammer.
pub open spec fn characteristic_faces(success: Rc<Unit>, boon: Rc<Unit>) -> Seq<FaceSpec> {
    seq![
        succeeded_face(success),
        succeeded_face(success),
        booned_face(boon),
        blank_face(success),
    ]
}

/// The sides of the Challenge die of Warhammer.
pub open spec fn challenge_faces(
    success: Rc<Unit>,
    boon: Rc<Unit>,
    star: Rc<Unit>,
) -> Seq<FaceSpec> {
    seq![
        challenged_face(success),
        challenged_face(success),
        challenged_x2_face(success),
        challenged_x2_face(success),
        bane_face(boon),
        bane_x2_face(boon),
        chaos_star_face(star),
        blank_face(success),
    ]
}

/// The sides of the Expertise die of Warhammer.
pub open spec fn expertise_faces(
    success: Rc<Unit>,
    boon: Rc<Unit>,
    comet: Rc<Unit>,
    reroll: Rc<Unit>,
) -> Seq<FaceSpec> {
    seq![
        succeeded_face(success),
        righteous_face(success, reroll),
        booned_face(boon),
        booned_face(boon),
        sigmars_comet_face(comet),
        blank_face(success),
    ]
}

/// The sides of the Fortune die of Warhammer.
pub open spec fn fortune_faces(success: Rc<Unit>, boon: Rc<Unit>) -> Seq<FaceSpec> {
    seq![
        succeeded_face(success),
        succeeded_face(success),
        booned_face(boon),
        blank_face(success),
        blank_face(success),
        blank_face(success),
    ]
}

/// The sides of the Misfortune die of Warhammer.
pub open spec fn misfortune_faces(success: Rc<Unit>, boon: Rc<Unit>) -> Seq<FaceSpec> {
    seq![
        challenged_face(success),
        challenged_face(success),
        bane_face(boon),
        blank_face(success),
        blank_face(success),
        blank_face(success),
    ]
}

/// The sides of the Conservative die of Warhammer.
pub open spec fn conservative_faces(
    success: Rc<Unit>,
    boon: Rc<Unit>,
    delay: Rc<Unit>,
) -> Seq<FaceSpec> {
    seq![
        succeeded_face(success),
        succeeded_face(success),
        succeeded_face(success),
        succeeded_face(success),
        booned_face(boon),
        booned_face(boon),
        succ_boon_face(success, boon),
        succ_delay_face(success, delay),
        succ_delay_face(success, delay),
        blank_face(success),
    ]
}

/// The sides of the Reckless die of Warhammer.
pub open spec fn reckless_faces(
    success: Rc<Unit>,
    boon: Rc<Unit>,
    exertion: Rc<Unit>,
) -> Seq<FaceSpec> {
    seq![
        succeeded_x2_face(success),
        succeeded_x2_face(success),
        booned_x2_face(boon),
        succ_boon_face(success, boon),
        bane_face(boon),
        bane_face(boon),
        succ_exert_face(success, exertion),
        succ_exert_face(success, exertion),
        blank_face(success),
        blank_face(success),
    ]
}

/// Whether `units` and `dice` are the units and the dice of Warhammer: the
/// units by their names, each die by its name and its sides.
pub open spec fn is_warhammer(units: Seq<Rc<Unit>>, dice: Seq<Rc<Die>>) -> bool {
    &&& units.len() == 7
    &&& units[0].label() == "Successes"@
    &&& writes_three(units[0], "{} Successes"@, "{} Successes"@, "{|} Challenges"@)
    &&& units[1].label() == "Boons"@
    &&& writes_two(units[1], "{} Boons"@, "{|} Banes"@)
    &&& units[2].label() == "Delay"@
    &&& writes_one(units[2], "{} Delay(s)"@, true)
    &&& units[3].label() == "Exertion"@
    &&& writes_one(units[3], "{} Exertion"@, true)
    &&& units[4].label() == "Sigmar's Comet"@
    &&& writes_one(units[4], "{} Sigmar's Comet(s)"@, true)
    &&& units[5].label() == "Chaos Star"@
    &&& writes_one(units[5], "{} Chaos Star(s)"@, true)
    &&& units[6].label() == "Reroll"@
    &&& writes_one(units[6], "Reroll {} Expertise Dice"@, true)
    &&& dice.len() == 7
    &&& dice[0].name@ == "Characteristic"@
    &&& dice[0].explode_on is None
    &&& dice[0].wf()
    &&& has_faces(*dice[0], characteristic_faces(units[0], units[1]))
    &&& dice[1].name@ == "Challenge"@
    &&& dice[1].explode_on is None
    &&& dice[1].wf()
    &&& has_faces(*dice[1], challenge_faces(units[0], units[1], units[5]))
    &&& dice[2].name@ == "Expertise"@
    &&& dice[2].explode_on is None
    &&& dice[2].wf()
    &&& has_faces(*dice[2], expertise_faces(units[0], units[1], units[4], units[6]))
    &&& dice[3].name@ == "Fortune"@
    &&& dice[3].explode_on is None
    &&& dice[3].wf()
    &&& has_faces(*dice[3], fortune_faces(units[0], units[1]))
    &&& dice[4].name@ == "Misfortune"@
    &&& dice[4].explode_on is None
    &&& dice[4].wf()
    &&& has_faces(*dice[4], misfortune_faces(units[0], units[1]))
    &&& dice[5].name@ == "Conservative"@
    &&& dice[5].explode_on is None
    &&& dice[5].wf()
    &&& has_faces(*dice[5], conservative_faces(units[0], units[1], units[2]))
    &&& dice[6].name@ == "Reckless"@
    &&& dice[6].explode_on is None
    &&& dice[6].wf()
    &&& has_faces(*dice[6], reckless_faces(units[0], units[1], units[3]))
}

/// The seven units (successes, boons, delay, exertion, Sigmar's comet, chaos
/// star, reroll), each with an id of its own taken from the clock, and the
/// seven dice: characteristic, challenge, expertise, fortune, misfortune,
/// conservative and reckless.
pub fn build() -> (r: (Vec<Rc<Unit>>, Vec<Rc<Die>>))
    ensures
        is_warhammer(r.0@, r.1@),
{
    build_with_ids([new_id(), new_id(), new_id(), new_id(), new_id(), new_id(), new_id()])
}

/// The seven units (successes, boons, delay, exertion, Sigmar's comet, chaos
/// star, reroll) with the ids `ids`, and the seven dice: characteristic,
/// challenge, expertise, fortune, misfortune, conservative and reckless.
pub fn build_with_ids(ids: [u64; 7]) -> (r: (Vec<Rc<Unit>>, Vec<Rc<Die>>))
    ensures
        is_warhammer(r.0@, r.1@),
        forall|i: int| 0 <= i < 7 ==> (#[trigger] r.0@[i]).spec_id() == ids[i],
{
    let units = units(ids);
    let success = share(&units[0]);
    let boon = share(&units[1]);
    let delay = share(&units[2]);
    let exertion = share(&units[3]);
    let comet = share(&units[4]);
    let star = share(&units[5]);
    let reroll = share(&units[6]);
    let challenged = challenged(&success);
    let challenged_x2 = challenged_x2(&success);
    let succeeded = succeeded(&success);
    let succeeded_x2 = succeeded_x2(&success);
    let succ_boon = succ_boon(&success, &boon);
    let succ_delay = succ_delay(&success, &delay);
    let succ_exert = succ_exert(&success, &exertion);
    let righteous = righteous(&success, &reroll);
    let bane = bane(&boon);
    let bane_x2 = bane_x2(&boon);
    let booned = booned(&boon);
    let booned_x2 = booned_x2(&boon);
    let chaos_star = chaos_star(&star);
    let sigmars_comet = sigmars_comet(&comet);
    let blank = blank(&success);
    let mut dice: Vec<Rc<Die>> = Vec::with_capacity(7);
    let die = characteristic_die(&succeeded, &booned, &blank);
    assert(has_faces(*die, characteristic_faces(success, boon)));
    dice.push(die);
    let die = challenge_die(&challenged, &challenged_x2, &bane, &bane_x2, &chaos_star, &blank);
    assert(has_faces(*die, challenge_faces(success, boon, star)));
    dice.push(die);
    let die = expertise_die(&succeeded, &righteous, &booned, &sigmars_comet, &blank);
    assert(has_faces(*die, expertise_faces(success, boon, comet, reroll)));
    dice.push(die);
    let die = fortune_die(&succeeded, &booned, &blank);
    assert(has_faces(*die, fortune_faces(success, boon)));
    dice.push(die);
    let die = misfortune_die(&challenged, &bane, &blank);
    assert(has_faces(*die, misfortune_faces(success, boon)));
    dice.push(die);
    let die = conservative_die(&succeeded, &booned, &succ_boon, &succ_delay, &blank);
    assert(has_faces(*die, conservative_faces(success, boon, delay)));
    dice.push(die);
    let die = reckless_die(&succeeded_x2, &booned_x2, &succ_boon, &bane, &succ_exert, &blank);
    assert(has_faces(*die, reckless_faces(success, boon, exertion)));
    dice.push(die);
    (units, dice)
}

fn units(ids: [u64; 7]) -> (r: Vec<Rc<Unit>>)
    ensures
        r@.len() == 7,
        r@[0].spec_id() == ids[0],
        r@[0].label() == "Successes"@,
        writes_three(r@[0], "{} Successes"@, "{} Successes"@, "{|} Challenges"@),
        r@[1].spec_id() == ids[1],
        r@[1].label() == "Boons"@,
        writes_two(r@[1], "{} Boons"@, "{|} Banes"@),
        r@[2].spec_id() == ids[2],
        r@[2].label() == "Delay"@,
        writes_one(r@[2], "{} Delay(s)"@, true),
        r@[3].spec_id() == ids[3],
        r@[3].label() == "Exertion"@,
        writes_one(r@[3], "{} Exertion"@, true),
        r@[4].spec_id() == ids[4],
        r@[4].label() == "Sigmar's Comet"@,
        writes_one(r@[4], "{} Sigmar's Comet(s)"@, true),
        r@[5].spec_id() == ids[5],
        r@[5].label() == "Chaos Star"@,
        writes_one(r@[5], "{} Chaos Star(s)"@, true),
        r@[6].spec_id() == ids[6],
        r@[6].label() == "Reroll"@,
        writes_one(r@[6], "Reroll {} Expertise Dice"@, true),
{
    proof {
        reveal_strlit("Successes");
        lemma_ascii_name("Successes"@);
        reveal_strlit("Boons");
        lemma_ascii_name("Boons"@);
        reveal_strlit("Delay");
        lemma_ascii_name("Delay"@);
        reveal_strlit("Exertion");
        lemma_ascii_name("Exertion"@);
        reveal_strlit("Sigmar's Comet");
        lemma_ascii_name("Sigmar's Comet"@);
        reveal_strlit("Chaos Star");
        lemma_ascii_name("Chaos Star"@);
        reveal_strlit("Reroll");
        lemma_ascii_name("Reroll"@);
    }
    let mut units: Vec<Rc<Unit>> = Vec::with_capacity(7);
    units.push(
        TieredUnit::pos_zero_neg_with_id(
            ids[0],
            name("Successes"),
            "{} Successes",
            "{} Successes",
            "{|} Challenges",
        ),
    );
    units.push(TieredUnit::pos_neg_with_id(ids[1], name("Boons"), "{} Boons", "{|} Banes"));
    units.push(BasicUnit::rebuild(ids[2], name("Delay"), String::from_str("{} Delay(s)"), true));
    units.push(BasicUnit::rebuild(ids[3], name("Exertion"), String::from_str("{} Exertion"), true));
    units.push(
        BasicUnit::rebuild(
            ids[4],
            name("Sigmar's Comet"),
            String::from_str("{} Sigmar's Comet(s)"),
            true,
        ),
    );
    units.push(
        BasicUnit::rebuild(ids[5], name("Chaos Star"), String::from_str("{} Chaos Star(s)"), true),
    );
    units.push(
        BasicUnit::rebuild(
            ids[6],
            name("Reroll"),
            String::from_str("Reroll {} Expertise Dice"),
            true,
        ),
    );
    units
}

fn challenged(success: &Rc<Unit>) -> (r: Rc<Face>)
    ensures
        shows(*r, challenged_face(*success).0, challenged_face(*success).1),
{
    proof {
        reveal_strlit("Challenge");
        lemma_ascii_name("Challenge"@);
    }
    Face::with_one_val(name("Challenge"), Value::new(success, -1))
}

fn challenged_x2(success: &Rc<Unit>) -> (r: Rc<Face>)
    ensures
        shows(*r, challenged_x2_face(*success).0, challenged_x2_face(*success).1),
{
    proof {
        reveal_strlit("Challenge x2");
        lemma_ascii_name("Challenge x2"@);
    }
    Face::with_one_val(name("Challenge x2"), Value::new(success, -2))
}

fn succeeded(success: &Rc<Unit>) -> (r: Rc<Face>)
    ensures
        shows(*r, succeeded_face(*success).0, succeeded_face(*success).1),
{
    proof {
        reveal_strlit("Success");
        lemma_ascii_name("Success"@);
    }
    Face::with_one_val(name("Success"), Value::new(success, 1))
}

fn succeeded_x2(success: &Rc<Unit>) -> (r: Rc<Face>)
    ensures
        shows(*r, succeeded_x2_face(*success).0, succeeded_x2_face(*success).1),
{
    proof {
        reveal_strlit("Success x2");
        lemma_ascii_name("Success x2"@);
    }
    Face::with_one_val(name("Success x2"), Value::new(success, 2))
}

fn succ_boon(success: &Rc<Unit>, boon: &Rc<Unit>) -> (r: Rc<Face>)
    ensures
        shows(*r, succ_boon_face(*success, *boon).0, succ_boon_face(*success, *boon).1),
{
    proof {
        reveal_strlit("Success + Boon");
        lemma_ascii_name("Success + Boon"@);
    }
    Face::with_two_vals(name("Success + Boon"), Value::new(success, 1), Value::new(boon, 1))
}

fn succ_delay(success: &Rc<Unit>, delay: &Rc<Unit>) -> (r: Rc<Face>)
    ensures
        shows(*r, succ_delay_face(*success, *delay).0, succ_delay_face(*success, *delay).1),
{
    proof {
        reveal_strlit("Success + Delay");
        lemma_ascii_name("Success + Delay"@);
    }
    Face::with_two_vals(name("Success + Delay"), Value::new(success, 1), Value::new(delay, 1))
}

fn succ_exert(success: &Rc<Unit>, exertion: &Rc<Unit>) -> (r: Rc<Face>)
    ensures
        shows(*r, succ_exert_face(*success, *exertion).0, succ_exert_face(*success, *exertion).1),
{
    proof {
        reveal_strlit("Success + Exertion");
        lemma_ascii_name("Success + Exertion"@);
    }
    Face::with_two_vals(name("Success + Exertion"), Value::new(success, 1), Value::new(exertion, 1))
}

fn righteous(success: &Rc<Unit>, reroll: &Rc<Unit>) -> (r: Rc<Face>)
    ensures
        shows(*r, righteous_face(*success, *reroll).0, righteous_face(*success, *reroll).1),
{
    proof {
        reveal_strlit("Righteous Success");
        lemma_ascii_name("Righteous Success"@);
    }
    Face::with_two_vals(name("Righteous Success"), Value::new(success, 1), Value::new(reroll, 1))
}

fn bane(boon: &Rc<Unit>) -> (r: Rc<Face>)
    ensures
        shows(*r, bane_face(*boon).0, bane_face(*boon).1),
{
    proof {
        reveal_strlit("Bane");
        lemma_ascii_name("Bane"@);
    }
    Face::with_one_val(name("Bane"), Value::new(boon, -1))
}

fn bane_x2(boon: &Rc<Unit>) -> (r: Rc<Face>)
    ensures
        shows(*r, bane_x2_face(*boon).0, bane_x2_face(*boon).1),
{
    proof {
        reveal_strlit("Bane x2");
        lemma_ascii_name("Bane x2"@);
    }
    Face::with_one_val(name("Bane x2"), Value::new(boon, -2))
}

fn booned(boon: &Rc<Unit>) -> (r: Rc<Face>)
    ensures
        shows(*r, booned_face(*boon).0, booned_face(*boon).1),
{
    proof {
        reveal_strlit("Boon");
        lemma_ascii_name("Boon"@);
    }
    Face::with_one_val(name("Boon"), Value::new(boon, 1))
}

fn booned_x2(boon: &Rc<Unit>) -> (r: Rc<Face>)
    ensures
        shows(*r, booned_x2_face(*boon).0, booned_x2_face(*boon).1),
{
    proof {
        reveal_strlit("Boon x2");
        lemma_ascii_name("Boon x2"@);
    }
    Face::with_one_val(name("Boon x2"), Value::new(boon, 2))
}

fn chaos_star(star: &Rc<Unit>) -> (r: Rc<Face>)
    ensures
        shows(*r, chaos_star_face(*star).0, chaos_star_face(*star).1),
{
    proof {
        reveal_strlit("Chaos Star");
        lemma_ascii_name("Chaos Star"@);
    }
    Face::with_one_val(name("Chaos Star"), Value::new(star, 1))
}

fn sigmars_comet(comet: &Rc<Unit>) -> (r: Rc<Face>)
    ensures
        shows(*r, sigmars_comet_face(*comet).0, sigmars_comet_face(*comet).1),
{
    proof {
        reveal_strlit("Sigmar's Comet");
        lemma_ascii_name("Sigmar's Comet"@);
    }
    Face::with_one_val(name("Sigmar's Comet"), Value::new(comet, 1))
}

fn blank(success: &Rc<Unit>) -> (r: Rc<Face>)
    ensures
        shows(*r, blank_face(*success).0, blank_face(*success).1),
{
    Face::blank(success)
}

fn characteristic_die(succeeded: &Rc<Face>, booned: &Rc<Face>, blank: &Rc<Face>) -> (r: Rc<Die>)
    ensures
        r.name@ == "Characteristic"@,
        r.explode_on is None,
        r.faces@ == seq![*succeeded, *succeeded, *booned, *blank],
{
    proof {
        reveal_strlit("Characteristic");
        lemma_ascii_name("Characteristic"@);
    }
    let mut faces: Vec<Rc<Face>> = Vec::with_capacity(4);
    faces.push(share(succeeded));
    faces.push(share(succeeded));
    faces.push(share(booned));
    faces.push(share(blank));
    assert(faces@ =~= seq![*succeeded, *succeeded, *booned, *blank]);
    Die::new(name("Characteristic"), faces)
}

fn challenge_die(
    challenged: &Rc<Face>,
    challenged_x2: &Rc<Face>,
    bane: &Rc<Face>,
    bane_x2: &Rc<Face>,
    chaos_star: &Rc<Face>,
    blank: &Rc<Face>,
) -> (r: Rc<Die>)
    ensures
        r.name@ == "Challenge"@,
        r.explode_on is None,
        r.faces@ == seq![
            *challenged,
            *challenged,
            *challenged_x2,
            *challenged_x2,
            *bane,
            *bane_x2,
            *chaos_star,
            *blank,
        ],
{
    proof {
        reveal_strlit("Challenge");
        lemma_ascii_name("Challenge"@);
    }
    let mut faces: Vec<Rc<Face>> = Vec::with_capacity(8);
    faces.push(share(challenged));
    faces.push(share(challenged));
    faces.push(share(challenged_x2));
    faces.push(share(challenged_x2));
    faces.push(share(bane));
    faces.push(share(bane_x2));
    faces.push(share(chaos_star));
    faces.push(share(blank));
    assert(faces@ =~= seq![
        *challenged,
        *challenged,
        *challenged_x2,
        *challenged_x2,
        *bane,
        *bane_x2,
        *chaos_star,
        *blank,
    ]);
    Die::new(name("Challenge"), faces)
}

fn expertise_die(
    succeeded: &Rc<Face>,
    righteous: &Rc<Face>,
    booned: &Rc<Face>,
    sigmars_comet: &Rc<Face>,
    blank: &Rc<Face>,
) -> (r: Rc<Die>)
    ensures
        r.name@ == "Expertise"@,
        r.explode_on is None,
        r.faces@ == seq![*succeeded, *righteous, *booned, *booned, *sigmars_comet, *blank],
{
    proof {
        reveal_strlit("Expertise");
        lemma_ascii_name("Expertise"@);
    }
    let mut faces: Vec<Rc<Face>> = Vec::with_capacity(6);
    faces.push(share(succeeded));
    faces.push(share(righteous));
    faces.push(share(booned));
    faces.push(share(booned));
    faces.push(share(sigmars_comet));
    faces.push(share(blank));
    assert(faces@ =~= seq![*succeeded, *righteous, *booned, *booned, *sigmars_comet, *blank]);
    Die::new(name("Expertise"), faces)
}

fn fortune_die(succeeded: &Rc<Face>, booned: &Rc<Face>, blank: &Rc<Face>) -> (r: Rc<Die>)
    ensures
        r.name@ == "Fortune"@,
        r.explode_on is None,
        r.faces@ == seq![*succeeded, *succeeded, *booned, *blank, *blank, *blank],
{
    proof {
        reveal_strlit("Fortune");
        lemma_ascii_name("Fortune"@);
    }
    let mut faces: Vec<Rc<Face>> = Vec::with_capacity(6);
    faces.push(share(succeeded));
    faces.push(share(succeeded));
    faces.push(share(booned));
    faces.push(share(blank));
    faces.push(share(blank));
    faces.push(share(blank));
    assert(faces@ =~= seq![*succeeded, *succeeded, *booned, *blank, *blank, *blank]);
    Die::new(name("Fortune"), faces)
}

fn misfortune_die(challenged: &Rc<Face>, bane: &Rc<Face>, blank: &Rc<Face>) -> (r: Rc<Die>)
    ensures
        r.name@ == "Misfortune"@,
        r.explode_on is None,
        r.faces@ == seq![*challenged, *challenged, *bane, *blank, *blank, *blank],
{
    proof {
        reveal_strlit("Misfortune");
        lemma_ascii_name("Misfortune"@);
    }
    let mut faces: Vec<Rc<Face>> = Vec::with_capacity(6);
    faces.push(share(challenged));
    faces.push(share(challenged));
    faces.push(share(bane));
    faces.push(share(blank));
    faces.push(share(blank));
    faces.push(share(blank));
    assert(faces@ =~= seq![*challenged, *challenged, *bane, *blank, *blank, *blank]);
    Die::new(name("Misfortune"), faces)
}

fn conservative_die(
    succeeded: &Rc<Face>,
    booned: &Rc<Face>,
    succ_boon: &Rc<Face>,
    succ_delay: &Rc<Face>,
    blank: &Rc<Face>,
) -> (r: Rc<Die>)
    ensures
        r.name@ == "Conservative"@,
        r.explode_on is None,
        r.faces@ == seq![
            *succeeded,
            *succeeded,
            *succeeded,
            *succeeded,
            *booned,
            *booned,
            *succ_boon,
            *succ_delay,
            *succ_delay,
            *blank,
        ],
{
    proof {
        reveal_strlit("Conservative");
        lemma_ascii_name("Conservative"@);
    }
    let mut faces: Vec<Rc<Face>> = Vec::with_capacity(10);
    faces.push(share(succeeded));
    faces.push(share(succeeded));
    faces.push(share(succeeded));
    faces.push(share(succeeded));
    faces.push(share(booned));
    faces.push(share(booned));
    faces.push(share(succ_boon));
    faces.push(share(succ_delay));
    faces.push(share(succ_delay));
    faces.push(share(blank));
    assert(faces@ =~= seq![
        *succeeded,
        *succeeded,
        *succeeded,
        *succeeded,
        *booned,
        *booned,
        *succ_boon,
        *succ_delay,
        *succ_delay,
        *blank,
    ]);
    Die::new(name("Conservative"), faces)
}

fn reckless_die(
    succeeded_x2: &Rc<Face>,
    booned_x2: &Rc<Face>,
    succ_boon: &Rc<Face>,
    bane: &Rc<Face>,
    succ_exert: &Rc<Face>,
    blank: &Rc<Face>,
) -> (r: Rc<Die>)
    ensures
        r.name@ == "Reckless"@,
        r.explode_on is None,
        r.faces@ == seq![
            *succeeded_x2,
            *succeeded_x2,
            *booned_x2,
            *succ_boon,
            *bane,
            *bane,
            *succ_exert,
            *succ_exert,
            *blank,
            *blank,
        ],
{
    proof {
        reveal_strlit("Reckless");
        lemma_ascii_name("Reckless"@);
    }
    let mut faces: Vec<Rc<Face>> = Vec::with_capacity(10);
    faces.push(share(succeeded_x2));
    faces.push(share(succeeded_x2));
    faces.push(share(booned_x2));
    faces.push(share(succ_boon));
    faces.push(share(bane));
    faces.push(share(bane));
    faces.push(share(succ_exert));
    faces.push(share(succ_exert));
    faces.push(share(blank));
    faces.push(share(blank));
    assert(faces@ =~= seq![
        *succeeded_x2,
        *succeeded_x2,
        *booned_x2,
        *succ_boon,
        *bane,
        *bane,
        *succ_exert,
        *succ_exert,
        *blank,
        *blank,
    ]);
    Die::new(name("Reckless"), faces)
}

} // verus!
