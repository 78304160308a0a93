//! The narrative dice of the Star Wars roleplaying games.

use vstd::prelude::*;
use std::rc::Rc;
use crate::dice::{Die, Face};
use crate::premade::{
    has_faces, lemma_ascii_name, name, one, shows, two, writes_three, writes_two,
    FaceSpec,
};
use crate::random::new_id;
use crate::share::share;
use crate::units::{TieredUnit, Unit};
use crate::value::Value;

verus! {

/// A success.
pub open spec fn succ_face(success: Rc<Unit>) -> FaceSpec {
    ("Success"@, one(success, 1i32))
}

/// Two successes.
pub open spec fn succ_x2_face(success: Rc<Unit>) -> FaceSpec {
    ("Success x2"@, one(success, 2i32))
}

/// A failure: a success less.
pub open spec fn fail_face(success: Rc<Unit>) -> FaceSpec {
    ("Failure"@, one(success, -1i32))
}

/// Two failures.
pub open spec fn fail_x2_face(success: Rc<Unit>) -> FaceSpec {
    ("Failure x2"@, one(success, -2i32))
}

/// An advantage.
pub open spec fn adv_face(advantage: Rc<Unit>) -> FaceSpec {
    ("Advantage"@, one(advantage, 1i32))
}

/// Two advantages.
pub open spec fn adv_x2_face(advantage: Rc<Unit>) -> FaceSpec {
    ("Advantage x2"@, one(advantage, 2i32))
}

/// A threat: an advantage less.
pub open spec fn threat_face(advantage: Rc<Unit>) -> FaceSpec {
    ("Threat"@, one(advantage, -1i32))
}

/// Two threats.
pub open spec fn threat_x2_face(advantage: Rc<Unit>) -> FaceSpec {
    ("Threat x2"@, one(advantage, -2i32))
}

/// A success and an advantage.
pub open spec fn succ_adv_face(success: Rc<Unit>, advantage: Rc<Unit>) -> FaceSpec {
    ("Success + Advantage"@, two(success, 1i32, advantage, 1i32))
}

/// A failure and a threat.
pub open spec fn fail_threat_face(success: Rc<Unit>, advantage: Rc<Unit>) -> FaceSpec {
    ("Failure + Threat"@, two(success, -1i32, advantage, -1i32))
}

/// A triumph.
pub open spec fn triumphant_face(triumph: Rc<Unit>) -> FaceSpec {
    ("Triumph"@, one(triumph, 1i32))
}

/// A point of the light side.
pub open spec fn light_face(force: Rc<Unit>) -> FaceSpec {
    ("Light"@, one(force, 1i32))
}

/// Two points of the light side.
pub open spec fn light_x2_face(force: Rc<Unit>) -> FaceSpec {
    ("Light x2"@, one(force, 2i32))
}

/// A point of the dark side.
pub open spec fn dark_face(force: Rc<Unit>) -> FaceSpec {
    ("Dark"@, one(force, -1i32))
}

/// Two points of the dark side.
pub open spec fn dark_x2_face(force: Rc<Unit>) -> FaceSpec {
    ("Dark x2"@, one(force, -2i32))
}

/// A blank side.
pub open spec fn blank_face(success: Rc<Unit>) -> FaceSpec {
    ("_"@, one(success, 0i32))
}

/// The sides of the Ability die of Star Wars.
pub open spec fn ability_faces(success: Rc<Unit>, advantage: Rc<Unit>) -> Seq<FaceSpec> {
    seq![
        succ_face(success),
        succ_face(success),
        succ_x2_face(success),
        adv_face(advantage),
        adv_face(advantage),
        succ_adv_face(success, advantage),
        adv_x2_face(advantage),
        blank_face(success),
    ]
}

/// The sides of the Proficiency die of Star Wars.
pub open spec fn proficiency_faces(
    success: Rc<Unit>,
    advantage: Rc<Unit>,
    triumph: Rc<Unit>,
) -> Seq<FaceSpec> {
    seq![
        succ_face(success),
        succ_face(success),
        succ_x2_face(success),
        succ_x2_face(success),
        adv_face(advantage),
        adv_face(advantage),
        adv_face(advantage),
        succ_adv_face(success, advantage),
        succ_adv_face(success, advantage),
        succ_adv_face(success, advantage),
        triumphant_face(triumph),
        blank_face(success),
    ]
}

/// The sides of the Boost die of Star Wars.
pub open spec fn boost_faces(success: Rc<Unit>, advantage: Rc<Unit>) -> Seq<FaceSpec> {
    seq![
        succ_face(success),
        succ_adv_face(success, advantage),
        adv_face(advantage),
        adv_x2_face(advantage),
        blank_face(success),
        blank_face(success),
    ]
}

/// The sides of the Difficulty die of Star Wars.
pub open spec fn difficulty_faces(success: Rc<Unit>, advantage: Rc<Unit>) -> Seq<FaceSpec> {
    seq![
        fail_face(success),
        fail_x2_face(success),
        threat_face(advantage),
        threat_face(advantage),
        threat_face(advantage),
        threat_x2_face(advantage),
        fail_threat_face(success, advantage),
        blank_face(success),
    ]
}

/// The sides of the Challenge die of Star Wars.
pub open spec fn challenge_faces(success: Rc<Unit>, advantage: Rc<Unit>) -> Seq<FaceSpec> {
    seq![
        fail_face(success),
        fail_x2_face(success),
        threat_face(advantage),
        threat_face(advantage),
        threat_face(advantage),
        threat_x2_face(advantage),
        fail_threat_face(success, advantage),
        blank_face(success),
    ]
}

/// The sides of the Setback die of Star Wars.
pub open spec fn setback_faces(success: Rc<Unit>, advantage: Rc<Unit>) -> Seq<FaceSpec> {
    seq![
        fail_face(success),
        fail_face(success),
        threat_face(advantage),
        threat_face(advantage),
        blank_face(success),
        blank_face(success),
    ]
}

/// The sides of the Force die of Star Wars.
pub open spec fn force_faces(force: Rc<Unit>) -> Seq<FaceSpec> {
    seq![
        light_face(force),
        light_face(force),
        light_x2_face(force),
        light_x2_face(force),
        light_x2_face(force),
        dark_face(force),
        dark_face(force),
        dark_face(force),
        dark_face(force),
        dark_face(force),
        dark_face(force),
        dark_x2_face(force),
    ]
}

/// Whether `units` and `dice` are the units and the dice of Star Wars: the
/// units by their names, each die by its name and its sides.
pub open spec fn is_star_wars(units: Seq<Rc<Unit>>, dice: Seq<Rc<Die>>) -> bool {
    &&& units.len() == 4
    &&& units[0].label() == "Success"@
    &&& writes_three(units[0], "{} Successes"@, "{} Successes"@, "{|} Failures"@)
    &&& units[1].label() == "Advantage"@
    &&& writes_two(units[1], "{} Advantage"@, "{|} Threat"@)
    &&& units[2].label() == "Triumph"@
    &&& writes_two(units[2], "{} Triumph"@, "{|} Despair"@)
    &&& units[3].label() == "Force"@
    &&& writes_two(units[3], "{} Light Side"@, "{|} Dark Side"@)
    &&& dice.len() == 7
    &&& dice[0].name@ == "Ability"@
    &&& dice[0].explode_on is None
    &&& dice[0].wf()
    &&& has_faces(*dice[0], ability_faces(units[0], units[1]))
    &&& dice[1].name@ == "Proficiency"@
    &&& dice[1].explode_on is None
    &&& dice[1].wf()
    &&& has_faces(*dice[1], proficiency_faces(units[0], units[1], units[2]))
    &&& dice[2].name@ == "Boost"@
    &&& dice[2].explode_on is None
    &&& dice[2].wf()
    &&& has_faces(*dice[2], boost_faces(units[0], units[1]))
    &&& dice[3].name@ == "Difficulty"@
    &&& dice[3].explode_on is None
    &&& dice[3].wf()
    &&& has_faces(*dice[3], difficulty_faces(units[0], units[1]))
    &&& dice[4].name@ == "Challenge"@
    &&& dice[4].explode_on is None
    &&& dice[4].wf()
    &&& has_faces(*dice[4], challenge_faces(units[0], units[1]))
    &&& dice[5].name@ == "Setback"@
    &&& dice[5].explode_on is None
    &&& dice[5].wf()
    &&& has_faces(*dice[5], setback_faces(units[0], units[1]))
    &&& dice[6].name@ == "Force"@
    &&& dice[6].explode_on is None
    &&& dice[6].wf()
    &&& has_faces(*dice[6], force_faces(units[3]))
}

/// The four units (success, advantage, triumph, force), each with an id of its
/// own taken from the clock, and the seven dice: ability, proficiency, boost,
/// difficulty, challenge, setback and force.
pub fn build() -> (r: (Vec<Rc<Unit>>, Vec<Rc<Die>>))
    ensures
        is_star_wars(r.0@, r.1@),
{
    build_with_ids([new_id(), new_id(), new_id(), new_id()])
}

/// The four units (success, advantage, triumph, force) with the ids `ids`, and
/// the seven dice: ability, proficiency, boost, difficulty, challenge, setback
/// and force.
pub fn build_with_ids(ids: [u64; 4]) -> (r: (Vec<Rc<Unit>>, Vec<Rc<Die>>))
    ensures
        is_star_wars(r.0@, r.1@),
        forall|i: int| 0 <= i < 4 ==> (#[trigger] r.0@[i]).spec_id() == ids[i],
{
    let units = units(ids);
    let success = share(&units[0]);
    let advantage = share(&units[1]);
    let triumph = share(&units[2]);
    let force = share(&units[3]);
    let succ = succ(&success);
    let succ_x2 = succ_x2(&success);
    let fail = fail(&success);
    let fail_x2 = fail_x2(&success);
    let adv = adv(&advantage);
    let adv_x2 = adv_x2(&advantage);
    let threat = threat(&advantage);
    let threat_x2 = threat_x2(&advantage);
    let succ_adv = succ_adv(&success, &advantage);
    let fail_threat = fail_threat(&success, &advantage);
    let triumphant = triumphant(&triumph);
    let light = light(&force);
    let light_x2 = light_x2(&force);
    let dark = dark(&force);
    let dark_x2 = dark_x2(&force);
    let blank = blank(&success);
    let mut dice: Vec<Rc<Die>> = Vec::with_capacity(7);
    let die = ability_die(&succ, &succ_x2, &adv, &succ_adv, &adv_x2, &blank);
    assert(has_faces(*die, ability_faces(success, advantage)));
    dice.push(die);
    let die = proficiency_die(&succ, &succ_x2, &adv, &succ_adv, &triumphant, &blank);
    assert(has_faces(*die, proficiency_faces(success, advantage, triumph)));
    dice.push(die);
    let die = boost_die(&succ, &succ_adv, &adv, &adv_x2, &blank);
    assert(has_faces(*die, boost_faces(success, advantage)));
    dice.push(die);
    let die = difficulty_die(&fail, &fail_x2, &threat, &threat_x2, &fail_threat, &blank);
    assert(has_faces(*die, difficulty_faces(success, advantage)));
    dice.push(die);
    let die = challenge_die(&fail, &fail_x2, &threat, &threat_x2, &fail_threat, &blank);
    assert(has_faces(*die, challenge_faces(success, advantage)));
    dice.push(die);
    let die = setback_die(&fail, &threat, &blank);
    assert(has_faces(*die, setback_faces(success, advantage)));
    dice.push(die);
    let die = force_die(&light, &light_x2, &dark, &dark_x2);
    assert(has_faces(*die, force_faces(force)));
    dice.push(die);
    (units, dice)
}

fn units(ids: [u64; 4]) -> (r: Vec<Rc<Unit>>)
    ensures
        r@.len() == 4,
        r@[0].spec_id() == ids[0],
        r@[0].label() == "Success"@,
        writes_three(r@[0], "{} Successes"@, "{} Successes"@, "{|} Failures"@),
        r@[1].spec_id() == ids[1],
        r@[1].label() == "Advantage"@,
        writes_two(r@[1], "{} Advantage"@, "{|} Threat"@),
        r@[2].spec_id() == ids[2],
        r@[2].label() == "Triumph"@,
        writes_two(r@[2], "{} Triumph"@, "{|} Despair"@),
        r@[3].spec_id() == ids[3],
        r@[3].label() == "Force"@,
        writes_two(r@[3], "{} Light Side"@, "{|} Dark Side"@),
{
    proof {
        reveal_strlit("Success");
        lemma_ascii_name("Success"@);
        reveal_strlit("Advantage");
        lemma_ascii_name("Advantage"@);
        reveal_strlit("Triumph");
        lemma_ascii_name("Triumph"@);
        reveal_strlit("Force");
        lemma_ascii_name("Force"@);
    }
    let mut units: Vec<Rc<Unit>> = Vec::with_capacity(4);
    units.push(
        TieredUnit::pos_zero_neg_with_id(
            ids[0],
            name("Success"),
            "{} Successes",
            "{} Successes",
            "{|} Failures",
        ),
    );
    units.push(
        TieredUnit::pos_neg_with_id(ids[1], name("Advantage"), "{} Advantage", "{|} Threat"),
    );
    units.push(TieredUnit::pos_neg_with_id(ids[2], name("Triumph"), "{} Triumph", "{|} Despair"));
    units.push(
        TieredUnit::pos_neg_with_id(ids[3], name("Force"), "{} Light Side", "{|} Dark Side"),
    );
    units
}

fn succ(success: &Rc<Unit>) -> (r: Rc<Face>)
    ensures
        shows(*r, succ_face(*success).0, succ_face(*success).1),
{
    proof {
        reveal_strlit("Success");
        lemma_ascii_name("Success"@);
    }
    Face::with_one_val(name("Success"), Value::new(success, 1))
}

fn succ_x2(success: &Rc<Unit>) -> (r: Rc<Face>)
    ensures
        shows(*r, succ_x2_face(*success).0, succ_x2_face(*success).1),
{
    proof {
        reveal_strlit("Success x2");
        lemma_ascii_name("Success x2"@);
    }
    Face::with_one_val(name("Success x2"), Value::new(success, 2))
}

fn fail(success: &Rc<Unit>) -> (r: Rc<Face>)
    ensures
        shows(*r, fail_face(*success).0, fail_face(*success).1),
{
    proof {
        reveal_strlit("Failure");
        lemma_ascii_name("Failure"@);
    }
    Face::with_one_val(name("Failure"), Value::new(success, -1))
}

fn fail_x2(success: &Rc<Unit>) -> (r: Rc<Face>)
    ensures
        shows(*r, fail_x2_face(*success).0, fail_x2_face(*success).1),
{
    proof {
        reveal_strlit("Failure x2");
        lemma_ascii_name("Failure x2"@);
    }
    Face::with_one_val(name("Failure x2"), Value::new(success, -2))
}

fn adv(advantage: &Rc<Unit>) -> (r: Rc<Face>)
    ensures
        shows(*r, adv_face(*advantage).0, adv_face(*advantage).1),
{
    proof {
        reveal_strlit("Advantage");
        lemma_ascii_name("Advantage"@);
    }
    Face::with_one_val(name("Advantage"), Value::new(advantage, 1))
}

fn adv_x2(advantage: &Rc<Unit>) -> (r: Rc<Face>)
    ensures
        shows(*r, adv_x2_face(*advantage).0, adv_x2_face(*advantage).1),
{
    proof {
        reveal_strlit("Advantage x2");
        lemma_ascii_name("Advantage x2"@);
    }
    Face::with_one_val(name("Advantage x2"), Value::new(advantage, 2))
}

fn threat(advantage: &Rc<Unit>) -> (r: Rc<Face>)
    ensures
        shows(*r, threat_face(*advantage).0, threat_face(*advantage).1),
{
    proof {
        reveal_strlit("Threat");
        lemma_ascii_name("Threat"@);
    }
    Face::with_one_val(name("Threat"), Value::new(advantage, -1))
}

fn threat_x2(advantage: &Rc<Unit>) -> (r: Rc<Face>)
    ensures
        shows(*r, threat_x2_face(*advantage).0, threat_x2_face(*advantage).1),
{
    proof {
        reveal_strlit("Threat x2");
        lemma_ascii_name("Threat x2"@);
    }
    Face::with_one_val(name("Threat x2"), Value::new(advantage, -2))
}

fn succ_adv(success: &Rc<Unit>, advantage: &Rc<Unit>) -> (r: Rc<Face>)
    ensures
        shows(*r, succ_adv_face(*success, *advantage).0, succ_adv_face(*success, *advantage).1),
{
    proof {
        reveal_strlit("Success + Advantage");
        lemma_ascii_name("Success + Advantage"@);
    }
    Face::with_two_vals(
        name("Success + Advantage"),
        Value::new(success, 1),
        Value::new(advantage, 1),
    )
}

fn fail_threat(success: &Rc<Unit>, advantage: &Rc<Unit>) -> (r: Rc<Face>)
    ensures
        shows(
            *r,
            fail_threat_face(*success, *advantage).0,
            fail_threat_face(*success, *advantage).1,
        ),
{
    proof {
        reveal_strlit("Failure + Threat");
        lemma_ascii_name("Failure + Threat"@);
    }
    Face::with_two_vals(
        name("Failure + Threat"),
        Value::new(success, -1),
        Value::new(advantage, -1),
    )
}

fn triumphant(triumph: &Rc<Unit>) -> (r: Rc<Face>)
    ensures
        shows(*r, triumphant_face(*triumph).0, triumphant_face(*triumph).1),
{
    proof {
        reveal_strlit("Triumph");
        lemma_ascii_name("Triumph"@);
    }
    Face::with_one_val(name("Triumph"), Value::new(triumph, 1))
}

fn light(force: &Rc<Unit>) -> (r: Rc<Face>)
    ensures
        shows(*r, light_face(*force).0, light_face(*force).1),
{
    proof {
        reveal_strlit("Light");
        lemma_ascii_name("Light"@);
    }
    Face::with_one_val(name("Light"), Value::new(force, 1))
}

fn light_x2(force: &Rc<Unit>) -> (r: Rc<Face>)
    ensures
        shows(*r, light_x2_face(*force).0, light_x2_face(*force).1),
{
    proof {
        reveal_strlit("Light x2");
        lemma_ascii_name("Light x2"@);
    }
    Face::with_one_val(name("Light x2"), Value::new(force, 2))
}

fn dark(force: &Rc<Unit>) -> (r: Rc<Face>)
    ensures
        shows(*r, dark_face(*force).0, dark_face(*force).1),
{
    proof {
        reveal_strlit("Dark");
        lemma_ascii_name("Dark"@);
    }
    Face::with_one_val(name("Dark"), Value::new(force, -1))
}

fn dark_x2(force: &Rc<Unit>) -> (r: Rc<Face>)
    ensures
        shows(*r, dark_x2_face(*force).0, dark_x2_face(*force).1),
{
    proof {
        reveal_strlit("Dark x2");
        lemma_ascii_name("Dark x2"@);
    }
    Face::with_one_val(name("Dark x2"), Value::new(force, -2))
}

fn blank(success: &Rc<Unit>) -> (r: Rc<Face>)
    ensures
        shows(*r, blank_face(*success).0, blank_face(*success).1),
{
    Face::blank(success)
}

fn ability_die(
    succ: &Rc<Face>,
    succ_x2: &Rc<Face>,
    adv: &Rc<Face>,
    succ_adv: &Rc<Face>,
    adv_x2: &Rc<Face>,
    blank: &Rc<Face>,
) -> (r: Rc<Die>)
    ensures
        r.name@ == "Ability"@,
        r.explode_on is None,
        r.faces@ == seq![*succ, *succ, *succ_x2, *adv, *adv, *succ_adv, *adv_x2, *blank],
{
    proof {
        reveal_strlit("Ability");
        lemma_ascii_name("Ability"@);
    }
    let mut faces: Vec<Rc<Face>> = Vec::with_capacity(8);
    faces.push(share(succ));
    faces.push(share(succ));
    faces.push(share(succ_x2));
    faces.push(share(adv));
    faces.push(share(adv));
    faces.push(share(succ_adv));
    faces.push(share(adv_x2));
    faces.push(share(blank));
    assert(faces@ =~= seq![*succ, *succ, *succ_x2, *adv, *adv, *succ_adv, *adv_x2, *blank]);
    Die::new(name("Ability"), faces)
}

fn proficiency_die(
    succ: &Rc<Face>,
    succ_x2: &Rc<Face>,
    adv: &Rc<Face>,
    succ_adv: &Rc<Face>,
    triumphant: &Rc<Face>,
    blank: &Rc<Face>,
) -> (r: Rc<Die>)
    ensures
        r.name@ == "Proficiency"@,
        r.explode_on is None,
        r.faces@ == seq![
            *succ,
            *succ,
            *succ_x2,
            *succ_x2,
            *adv,
            *adv,
            *adv,
            *succ_adv,
            *succ_adv,
            *succ_adv,
            *triumphant,
            *blank,
        ],
{
    proof {
        reveal_strlit("Proficiency");
        lemma_ascii_name("Proficiency"@);
    }
    let mut faces: Vec<Rc<Face>> = Vec::with_capacity(12);
    faces.push(share(succ));
    faces.push(share(succ));
    faces.push(share(succ_x2));
    faces.push(share(succ_x2));
    faces.push(share(adv));
    faces.push(share(adv));
    faces.push(share(adv));
    faces.push(share(succ_adv));
    faces.push(share(succ_adv));
    faces.push(share(succ_adv));
    faces.push(share(triumphant));
    faces.push(share(blank));
    assert(faces@ =~= seq![
        *succ,
        *succ,
        *succ_x2,
        *succ_x2,
        *adv,
        *adv,
        *adv,
        *succ_adv,
        *succ_adv,
        *succ_adv,
        *triumphant,
        *blank,
    ]);
    Die::new(name("Proficiency"), faces)
}

fn boost_die(
    succ: &Rc<Face>,
    succ_adv: &Rc<Face>,
    adv: &Rc<Face>,
    adv_x2: &Rc<Face>,
    blank: &Rc<Face>,
) -> (r: Rc<Die>)
    ensures
        r.name@ == "Boost"@,
        r.explode_on is None,
        r.faces@ == seq![*succ, *succ_adv, *adv, *adv_x2, *blank, *blank],
{
    proof {
        reveal_strlit("Boost");
        lemma_ascii_name("Boost"@);
    }
    let mut faces: Vec<Rc<Face>> = Vec::with_capacity(6);
    faces.push(share(succ));
    faces.push(share(succ_adv));
    faces.push(share(adv));
    faces.push(share(adv_x2));
    faces.push(share(blank));
    faces.push(share(blank));
    assert(faces@ =~= seq![*succ, *succ_adv, *adv, *adv_x2, *blank, *blank]);
    Die::new(name("Boost"), faces)
}

fn difficulty_die(
    fail: &Rc<Face>,
    fail_x2: &Rc<Face>,
    threat: &Rc<Face>,
    threat_x2: &Rc<Face>,
    fail_threat: &Rc<Face>,
    blank: &Rc<Face>,
) -> (r: Rc<Die>)
    ensures
        r.name@ == "Difficulty"@,
        r.explode_on is None,
        r.faces@ == seq![
            *fail,
            *fail_x2,
            *threat,
            *threat,
            *threat,
            *threat_x2,
            *fail_threat,
            *blank,
        ],
{
    proof {
        reveal_strlit("Difficulty");
        lemma_ascii_name("Difficulty"@);
    }
    let mut faces: Vec<Rc<Face>> = Vec::with_capacity(8);
    faces.push(share(fail));
    faces.push(share(fail_x2));
    faces.push(share(threat));
    faces.push(share(threat));
    faces.push(share(threat));
    faces.push(share(threat_x2));
    faces.push(share(fail_threat));
    faces.push(share(blank));
    assert(faces@ =~= seq![
        *fail,
        *fail_x2,
        *threat,
        *threat,
        *threat,
        *threat_x2,
        *fail_threat,
        *blank,
    ]);
    Die::new(name("Difficulty"), faces)
}

fn challenge_die(
    fail: &Rc<Face>,
    fail_x2: &Rc<Face>,
    threat: &Rc<Face>,
    threat_x2: &Rc<Face>,
    fail_threat: &Rc<Face>,
    blank: &Rc<Face>,
) -> (r: Rc<Die>)
    ensures
        r.name@ == "Challenge"@,
        r.explode_on is None,
        r.faces@ == seq![
            *fail,
            *fail_x2,
            *threat,
            *threat,
            *threat,
            *threat_x2,
            *fail_threat,
            *blank,
        ],
{
    proof {
        reveal_strlit("Challenge");
        lemma_ascii_name("Challenge"@);
    }
    let mut faces: Vec<Rc<Face>> = Vec::with_capacity(8);
    faces.push(share(fail));
    faces.push(share(fail_x2));
    faces.push(share(threat));
    faces.push(share(threat));
    faces.push(share(threat));
    faces.push(share(threat_x2));
    faces.push(share(fail_threat));
    faces.push(share(blank));
    assert(faces@ =~= seq![
        *fail,
        *fail_x2,
        *threat,
        *threat,
        *threat,
        *threat_x2,
        *fail_threat,
        *blank,
    ]);
    Die::new(name("Challenge"), faces)
}

fn setback_die(fail: &Rc<Face>, threat: &Rc<Face>, blank: &Rc<Face>) -> (r: Rc<Die>)
    ensures
        r.name@ == "Setback"@,
        r.explode_on is None,
        r.faces@ == seq![*fail, *fail, *threat, *threat, *blank, *blank],
{
    proof {
        reveal_strlit("Setback");
        lemma_ascii_name("Setback"@);
    }
    let mut faces: Vec<Rc<Face>> = Vec::with_capacity(6);
    faces.push(share(fail));
    faces.push(share(fail));
    faces.push(share(threat));
    faces.push(share(threat));
    faces.push(share(blank));
    faces.push(share(blank));
    assert(faces@ =~= seq![*fail, *fail, *threat, *threat, *blank, *blank]);
    Die::new(name("Setback"), faces)
}

fn force_die(
    light: &Rc<Face>,
    light_x2: &Rc<Face>,
    dark: &Rc<Face>,
    dark_x2: &Rc<Face>,
) -> (r: Rc<Die>)
    ensures
        r.name@ == "Force"@,
        r.explode_on is None,
        r.faces@ == seq![
            *light,
            *light,
            *light_x2,
            *light_x2,
            *light_x2,
            *dark,
            *dark,
            *dark,
            *dark,
            *dark,
            *dark,
            *dark_x2,
        ],
{
    proof {
        reveal_strlit("Force");
        lemma_ascii_name("Force"@);
    }
    let mut faces: Vec<Rc<Face>> = Vec::with_capacity(12);
    faces.push(share(light));
    faces.push(share(light));
    faces.push(share(light_x2));
    faces.push(share(light_x2));
    faces.push(share(light_x2));
    faces.push(share(dark));
    faces.push(share(dark));
    faces.push(share(dark));
    faces.push(share(dark));
    faces.push(share(dark));
    faces.push(share(dark));
    faces.push(share(dark_x2));
    assert(faces@ =~= seq![
        *light,
        *light,
        *light_x2,
        *light_x2,
        *light_x2,
        *dark,
        *dark,
        *dark,
        *dark,
        *dark,
        *dark,
        *dark_x2,
    ]);
    Die::new(name("Force"), faces)
}

} // verus!
