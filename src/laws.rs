//! Laws that relate several operations of the engine.
use vstd::prelude::*;

use crate::actions::{ask_result, get_result, step, visible};
use crate::codec::{
    canonical, decode_ref, decodes, decodes_object, encode_ref, encodes, encodes_object, find_label,
    first_error, labelled, object_error, SavedObject, SavedWorld,
};
use crate::command::Command;
use crate::world::{
    actor_at, actor_upto, distance, has_label, label0, matches_upto, qualifies, relocated, resolve,
    valid_ref, weight_sum, well_formed, AmbiguousOption, Distance, Object, World,
};

verus! {

/// Every entity is at distance `Me` from itself.
pub proof fn lemma_distance_to_self(w: World, e: usize)
    requires
        e < w.objects@.len(),
    ensures
        distance(w.objects@, Option::Some(e), Option::Some(e)) == Distance::Me,
{
}

/// When `a` holds `b`, `b` sees `a` as its location, unless `b` also holds
/// `a` (a containment cycle of two).
pub proof fn lemma_held_converse(w: World, a: usize, b: usize)
    requires
        a < w.objects@.len(),
        b < w.objects@.len(),
        distance(w.objects@, Option::Some(a), Option::Some(b)) == Distance::Held,
        w.objects@[a as int].location != Option::Some(b),
    ensures
        distance(w.objects@, Option::Some(b), Option::Some(a)) == Distance::Location,
{
}

proof fn lemma_matches_grow(os: Seq<Object>, noun: Seq<char>, from: Option<usize>, max: Distance, m: int, n: int)
    requires
        0 <= m <= n,
    ensures
        matches_upto(os, noun, from, max, m).len() <= matches_upto(os, noun, from, max, n).len(),
    decreases n - m,
{
    if m < n {
        lemma_matches_grow(os, noun, from, max, m, n - 1);
    }
}

/// A label that two entities within reach answer to resolves to
/// `Ambiguous`, never to one of them.
pub proof fn lemma_two_matches_ambiguous(
    w: World,
    noun: Seq<char>,
    from: Option<usize>,
    max: Distance,
    i: usize,
    j: usize,
)
    requires
        i < w.objects@.len(),
        j < w.objects@.len(),
        i != j,
        qualifies(w.objects@, noun, from, max, i as int),
        qualifies(w.objects@, noun, from, max, j as int),
    ensures
        resolve(w.objects@, noun, from, max) == AmbiguousOption::<usize>::Ambiguous,
{
    let os = w.objects@;
    let (lo, hi) = if i < j {
        (i as int, j as int)
    } else {
        (j as int, i as int)
    };
    lemma_matches_grow(os, noun, from, max, lo + 1, hi);
    lemma_matches_grow(os, noun, from, max, hi + 1, os.len() as int);
    assert(matches_upto(os, noun, from, max, lo + 1).len() == matches_upto(os, noun, from, max, lo).len()
        + 1);
    assert(matches_upto(os, noun, from, max, hi + 1).len() == matches_upto(os, noun, from, max, hi).len()
        + 1);
}

/// Looking around changes nothing, so a second look tells the same as the
/// first.
pub proof fn lemma_look_around_repeatable(w: World, command: Command)
    requires
        w.playable(),
        command is Look,
        command->Look_0@ == "around"@,
    ensures
        step(w.objects@, command).0 == w.objects@,
        step(step(w.objects@, command).0, command) == step(w.objects@, command),
{
}

/// Canonical labels are non-empty and tell the entities apart.
pub open spec fn distinct_canonical(os: Seq<Object>) -> bool {
    &&& forall|i: int| 0 <= i < os.len() ==> #[trigger] label0(os, i).len() > 0
    &&& forall|i: int, j: int|
        0 <= i < os.len() && 0 <= j < os.len() && i != j ==> #[trigger] label0(os, i) != #[trigger] label0(
            os,
            j,
        )
}

/// `o` with an absent prospect filled from its destination, as decoding does.
pub open spec fn prospect_filled(o: Object) -> Option<usize> {
    if o.prospect is None {
        o.destination
    } else {
        o.prospect
    }
}

proof fn lemma_find_at(ss: Seq<SavedObject>, text: Seq<char>, k: int, j: int)
    requires
        0 <= k <= j < ss.len(),
        j <= usize::MAX,
        canonical(ss, j) == text,
        forall|m: int| k <= m < j ==> canonical(ss, m) != text,
    ensures
        find_label(ss, text, k) == Option::Some(j as usize),
    decreases j - k,
{
    if k < j {
        lemma_find_at(ss, text, k + 1, j);
    }
}

/// What the save form of `ss` refers to by `r`, decoded, is `r` again.
proof fn lemma_ref_round_trip(os: Seq<Object>, ss: Seq<SavedObject>, r: Option<usize>)
    requires
        w_encoded(os, ss),
        r matches Option::Some(i) ==> i < os.len(),
    ensures
        decode_ref(ss, encode_ref(os, r)) == r,
        encode_ref(os, r).len() == 0 <==> r is None,
{
    if let Option::Some(i) = r {
        assert(canonical(ss, i as int) == label0(os, i as int));
        assert forall|m: int| 0 <= m < i implies canonical(ss, m) != label0(os, i as int) by {
            assert(canonical(ss, m) == label0(os, m));
        }
        lemma_find_at(ss, label0(os, i as int), 0, i as int);
    }
}

/// `ss` is the save form of `os`, whose canonical labels are distinct.
pub open spec fn w_encoded(os: Seq<Object>, ss: Seq<SavedObject>) -> bool {
    &&& encodes(os, ss)
    &&& distinct_canonical(os)
    &&& forall|i: int| 0 <= i < os.len() ==> (#[trigger] os[i]).labels@.len() > 0
    &&& os.len() <= usize::MAX
}

proof fn lemma_no_error_upto(os: Seq<Object>, ss: Seq<SavedObject>, n: int)
    requires
        w_encoded(os, ss),
        forall|i: int|
            0 <= i < os.len() ==> {
                &&& valid_ref(os, (#[trigger] os[i]).location)
                &&& valid_ref(os, os[i].destination)
                &&& valid_ref(os, os[i].prospect)
            },
        0 <= n <= ss.len(),
    ensures
        first_error(ss, n) is None,
    decreases n,
{
    if n > 0 {
        lemma_no_error_upto(os, ss, n - 1);
        let o = os[n - 1];
        assert(encodes_object(os, n - 1, ss[n - 1]));
        lemma_ref_round_trip(os, ss, o.location);
        lemma_ref_round_trip(os, ss, o.destination);
        lemma_ref_round_trip(os, ss, o.prospect);
        assert(object_error(ss, ss[n - 1]) is None);
    }
}

/// Decoding the save form of a well-formed world whose canonical labels
/// are distinct succeeds, and gives back every entity's labels, texts,
/// numbers, location and destination; its prospect comes back too, except
/// that an absent prospect is filled from the destination.
pub proof fn lemma_round_trip(w: World, saved: SavedWorld)
    requires
        w.wf(),
        distinct_canonical(w.objects@),
        w.objects@.len() <= usize::MAX,
        encodes(w.objects@, saved.objects@),
    ensures
        labelled(saved.objects@),
        first_error(saved.objects@, saved.objects@.len() as int) is None,
        forall|d: Seq<Object>|
            #[trigger] decodes(saved.objects@, d) ==> {
                &&& d.len() == w.objects@.len()
                &&& forall|i: int|
                    0 <= i < d.len() ==> {
                        let o = w.objects@[i];
                        &&& (#[trigger] d[i]).labels@ == o.labels@
                        &&& d[i].description@ == o.description@
                        &&& d[i].details@ == o.details@
                        &&& d[i].contents@ == o.contents@
                        &&& d[i].text_go@ == o.text_go@
                        &&& d[i].weight == o.weight
                        &&& d[i].capacity == o.capacity
                        &&& d[i].health == o.health
                        &&& d[i].location == o.location
                        &&& d[i].destination == o.destination
                        &&& d[i].prospect == prospect_filled(o)
                    }
            },
{
    let os = w.objects@;
    let ss = saved.objects@;
    assert forall|i: int| 0 <= i < os.len() implies (#[trigger] os[i]).labels@.len() > 0 by {
        assert(well_formed(os));
    }
    assert(w_encoded(os, ss));
    assert forall|i: int| 0 <= i < ss.len() implies (#[trigger] ss[i]).labels@.len() > 0 by {
        assert(encodes_object(os, i, ss[i]));
        assert(os[i].labels@.len() > 0);
    }
    lemma_no_error_upto(os, ss, ss.len() as int);
    assert forall|d: Seq<Object>| #[trigger] decodes(ss, d) implies {
        &&& d.len() == os.len()
        &&& forall|i: int|
            0 <= i < d.len() ==> {
                let o = os[i];
                &&& (#[trigger] d[i]).labels@ == o.labels@
                &&& d[i].description@ == o.description@
                &&& d[i].details@ == o.details@
                &&& d[i].contents@ == o.contents@
                &&& d[i].text_go@ == o.text_go@
                &&& d[i].weight == o.weight
                &&& d[i].capacity == o.capacity
                &&& d[i].health == o.health
                &&& d[i].location == o.location
                &&& d[i].destination == o.destination
                &&& d[i].prospect == prospect_filled(o)
            }
    } by {
        assert forall|i: int| 0 <= i < d.len() implies {
            let o = os[i];
            &&& (#[trigger] d[i]).labels@ == o.labels@
            &&& d[i].description@ == o.description@
            &&& d[i].details@ == o.details@
            &&& d[i].contents@ == o.contents@
            &&& d[i].text_go@ == o.text_go@
            &&& d[i].weight == o.weight
            &&& d[i].capacity == o.capacity
            &&& d[i].health == o.health
            &&& d[i].location == o.location
            &&& d[i].destination == o.destination
            &&& d[i].prospect == prospect_filled(o)
        } by {
            let o = os[i];
            assert(well_formed(os));
            assert(encodes_object(os, i, ss[i]));
            assert(decodes_object(ss, ss[i], d[i]));
            lemma_ref_round_trip(os, ss, o.location);
            lemma_ref_round_trip(os, ss, o.destination);
            lemma_ref_round_trip(os, ss, o.prospect);
        }
    }
}

/// Words that two visible entities answer to ask the player to be more
/// specific, and name neither.
pub proof fn lemma_visible_ambiguous(w: World, message: Seq<char>, noun: Seq<char>, i: usize, j: usize)
    requires
        i < w.objects@.len(),
        j < w.objects@.len(),
        i != j,
        qualifies(w.objects@, noun, Option::Some(0), Distance::OverThere, i as int),
        qualifies(w.objects@, noun, Option::Some(0), Distance::OverThere, j as int),
    ensures
        visible(w.objects@, message, noun) == (
            "Please be more specific about which "@ + noun + " you mean.\n"@,
            Option::<usize>::None,
        ),
{
    lemma_two_matches_ambiguous(w, noun, Option::Some(0), Distance::OverThere, i, j);
}

proof fn lemma_single_match(os: Seq<Object>, noun: Seq<char>, from: Option<usize>, max: Distance, p: usize, n: int)
    requires
        p < os.len(),
        0 <= n <= os.len(),
        forall|i: int| 0 <= i < os.len() ==> (#[trigger] qualifies(os, noun, from, max, i) <==> i == p),
    ensures
        matches_upto(os, noun, from, max, n) == if n > p {
            seq![p]
        } else {
            Seq::<usize>::empty()
        },
    decreases n,
{
    if n > 0 {
        lemma_single_match(os, noun, from, max, p, n - 1);
        assert(qualifies(os, noun, from, max, n - 1) <==> n - 1 == p);
        if n - 1 == p {
            assert(Seq::<usize>::empty().push(p) =~= seq![p]);
        }
    }
}

proof fn lemma_single_actor(os: Seq<Object>, c: usize, n: int)
    requires
        c < os.len(),
        0 <= n <= os.len(),
        forall|i: int| 0 <= i < os.len() ==> (#[trigger] actor_at(os, i) <==> i == c),
    ensures
        actor_upto(os, n) == if n > c {
            Option::Some(c)
        } else {
            Option::<usize>::None
        },
    decreases n,
{
    if n > 0 {
        lemma_single_actor(os, c, n - 1);
        assert(actor_at(os, n - 1) <==> n - 1 == c);
    }
}

/// The player, their room `r`, an actor `c` in that room and a thing `p`
/// that the actor holds, all different, where `p` alone answers to `noun`.
pub open spec fn actor_holds_thing(os: Seq<Object>, noun: Seq<char>, r: usize, c: usize, p: usize) -> bool {
    &&& 0 < os.len()
    &&& r < os.len() && c < os.len() && p < os.len()
    &&& r != 0 && c != 0 && p != 0 && r != c && r != p && c != p
    &&& os[0].location == Option::Some(r)
    &&& os[c as int].location == Option::Some(r)
    &&& os[c as int].health > 0
    &&& os[p as int].location == Option::Some(c)
    &&& forall|i: int| 0 <= i < os.len() ==> (#[trigger] has_label(os[i], noun) <==> i == p)
}

/// Trying to take a thing that an actor in the room holds tells the player
/// to ask, and moves nothing.
pub proof fn lemma_get_from_actor_asks(w: World, noun: Seq<char>, r: usize, c: usize, p: usize)
    requires
        actor_holds_thing(w.objects@, noun, r, c, p),
    ensures
        get_result(w.objects@, noun) == (
            w.objects@,
            "You should ask "@ + label0(w.objects@, c as int) + " nicely.\n"@,
        ),
{
    let os = w.objects@;
    let from = Option::Some(0usize);
    assert(distance(os, from, Option::Some(p)) == Distance::HereContained);
    assert forall|i: int| 0 <= i < os.len() implies (#[trigger] qualifies(os, noun, from, Distance::OverThere, i)
        <==> i == p) by {
        assert(has_label(os[i], noun) <==> i == p);
    }
    lemma_single_match(os, noun, from, Distance::OverThere, p, os.len() as int);
    assert(visible(os, "what you want to get"@, noun) == (Seq::<char>::empty(), Option::Some(p)));
    let msg = "You should ask "@ + label0(os, c as int) + " nicely.\n"@;
    assert(Seq::<char>::empty() + msg =~= msg);
}

/// Asking for a thing that the only actor in the room holds hands it to
/// the player, when the player can bear its weight.
pub proof fn lemma_ask_actor_hands_over(w: World, noun: Seq<char>, r: usize, c: usize, p: usize)
    requires
        actor_holds_thing(w.objects@, noun, r, c, p),
        w.objects@.len() <= usize::MAX,
        forall|i: int|
            0 <= i < w.objects@.len() && i != 0 && i != c && w.objects@[i].location == Option::Some(r)
                ==> #[trigger] w.objects@[i].health <= 0,
        w.objects@[p as int].weight <= w.objects@[0].capacity,
        w.objects@[p as int].weight + weight_sum(w.objects@, 0, w.objects@.len() as int)
            <= w.objects@[0].capacity,
    ensures
        ask_result(w.objects@, noun) == (
            relocated(w.objects@, p, Option::Some(0)),
            "You get "@ + label0(w.objects@, p as int) + " from "@ + label0(w.objects@, c as int)
                + ".\n"@,
        ),
{
    let os = w.objects@;
    assert forall|i: int| 0 <= i < os.len() implies (#[trigger] actor_at(os, i) <==> i == c) by {
        assert((i as usize) as int == i);
        if i != c && i != 0 && os[i].location == Option::Some(r) {
            assert(os[i].health <= 0);
        }
    }
    lemma_single_actor(os, c, os.len() as int);
    let from = Option::Some(c);
    assert(distance(os, from, Option::Some(p)) == Distance::Held);
    assert forall|i: int| 0 <= i < os.len() implies (#[trigger] qualifies(os, noun, from, Distance::HeldContained, i)
        <==> i == p) by {
        assert(has_label(os[i], noun) <==> i == p);
    }
    lemma_single_match(os, noun, from, Distance::HeldContained, p, os.len() as int);
    let msg = "You get "@ + label0(os, p as int) + " from "@ + label0(os, c as int) + ".\n"@;
    assert(Seq::<char>::empty() + msg =~= msg);
}

} // verus!
