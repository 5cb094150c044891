//! The entity store, the reachability classifier, label resolution and
//! the one primitive that moves an entity.
use vstd::prelude::*;
use vstd::string::StringExecFns;

use crate::text::{cat, cat3, lower_of, lowercase, same_text};

verus! {

/// Index of the player entity.
pub const LOC_PLAYER: usize = 0;

/// A node of the containment graph: a room, a prop, a passage or an actor.
#[derive(Debug)]
pub struct Object {
    pub labels: Vec<String>,
    pub description: String,
    pub location: Option<usize>,
    pub destination: Option<usize>,
    pub prospect: Option<usize>,
    pub details: String,
    pub contents: String,
    pub text_go: String,
    pub weight: isize,
    pub capacity: isize,
    pub health: isize,
}

/// How far one entity is from another, most specific first.
#[derive(Debug, Clone, Copy, PartialEq, Eq, Structural, PartialOrd, Ord)]
pub enum Distance {
    Me,
    Held,
    HeldContained,
    Location,
    Here,
    HereContained,
    OverThere,
    NotHere,
    UnknownObject,
}

impl Distance {
    /// Position of the class in the order from `Me` to `UnknownObject`.
    pub open spec fn spec_rank(self) -> int {
        match self {
            Distance::Me => 0,
            Distance::Held => 1,
            Distance::HeldContained => 2,
            Distance::Location => 3,
            Distance::Here => 4,
            Distance::HereContained => 5,
            Distance::OverThere => 6,
            Distance::NotHere => 7,
            Distance::UnknownObject => 8,
        }
    }

    pub fn rank(&self) -> (r: u8)
        ensures
            r == self.spec_rank(),
    {
        match self {
            Distance::Me => 0,
            Distance::Held => 1,
            Distance::HeldContained => 2,
            Distance::Location => 3,
            Distance::Here => 4,
            Distance::HereContained => 5,
            Distance::OverThere => 6,
            Distance::NotHere => 7,
            Distance::UnknownObject => 8,
        }
    }

    /// Whether this class is at most `max` in the order.
    pub fn within(&self, max: &Distance) -> (r: bool)
        ensures
            r == (self.spec_rank() <= max.spec_rank()),
    {
        self.rank() <= max.rank()
    }
}

/// Outcome of a lookup that may find nothing, one thing, or several.
#[derive(Debug, PartialEq, Eq)]
pub enum AmbiguousOption<T> {
    Nothing,
    One(T),
    Ambiguous,
}

/// The container of `x`, if `x` names an entity that has one.
pub open spec fn loc(os: Seq<Object>, x: Option<usize>) -> Option<usize> {
    match x {
        Option::Some(a) => os[a as int].location,
        Option::None => Option::None,
    }
}

/// `object` names an entity whose container is `container`.
pub open spec fn holds(os: Seq<Object>, container: Option<usize>, object: Option<usize>) -> bool {
    object is Some && loc(os, object) == container
}

/// Some entity directly in `from_loc` has `to` as its prospect.
pub open spec fn has_passage(os: Seq<Object>, from_loc: Option<usize>, to: Option<usize>) -> bool {
    &&& from_loc is Some
    &&& to is Some
    &&& exists|p: int|
        0 <= p < os.len() && #[trigger] holds(os, from_loc, Option::Some(p as usize))
            && os[p].prospect == to
}

/// The first entity, from index `k` on, that lies directly in `from_loc`
/// and has `to` as its prospect.
pub open spec fn passage_scan(os: Seq<Object>, from_loc: Option<usize>, to: Option<usize>, k: int) -> Option<usize>
    decreases os.len() - k,
{
    if k < 0 || k >= os.len() {
        Option::None
    } else if holds(os, from_loc, Option::Some(k as usize)) && os[k].prospect == to {
        Option::Some(k as usize)
    } else {
        passage_scan(os, from_loc, to, k + 1)
    }
}

/// The reachability class of `to` seen from `from`.
pub open spec fn distance(os: Seq<Object>, from: Option<usize>, to: Option<usize>) -> Distance {
    let from_loc = loc(os, from);
    let to_loc = loc(os, to);
    if to is None {
        Distance::UnknownObject
    } else if to == from {
        Distance::Me
    } else if from is Some && holds(os, from, to) {
        Distance::Held
    } else if holds(os, to, from) {
        Distance::Location
    } else if from_loc is Some && holds(os, from_loc, to) {
        Distance::Here
    } else if from is Some && holds(os, from, to_loc) {
        Distance::HeldContained
    } else if from_loc is Some && holds(os, from_loc, to_loc) {
        Distance::HereContained
    } else if has_passage(os, from_loc, to) {
        Distance::OverThere
    } else {
        Distance::NotHere
    }
}

/// `x` is absent or an index into `os`.
pub open spec fn valid_ref(os: Seq<Object>, x: Option<usize>) -> bool {
    match x {
        Option::Some(i) => i < os.len(),
        Option::None => true,
    }
}

/// Every entity has a label and refers only to entities of `os`.
pub open spec fn well_formed(os: Seq<Object>) -> bool {
    forall|i: int|
        0 <= i < os.len() ==> {
            &&& (#[trigger] os[i]).labels@.len() > 0
            &&& valid_ref(os, os[i].location)
            &&& valid_ref(os, os[i].destination)
            &&& valid_ref(os, os[i].prospect)
        }
}

/// The canonical label of entity `i`.
pub open spec fn label0(os: Seq<Object>, i: int) -> Seq<char> {
    os[i].labels@[0]@
}

/// Some label of `o` equals `noun` once both are case folded.
pub open spec fn has_label(o: Object, noun: Seq<char>) -> bool {
    exists|k: int| 0 <= k < o.labels@.len() && lower_of(#[trigger] o.labels@[k]@) == lower_of(noun)
}

/// Entity `i` answers to `noun` and lies within `max` of `from`.
pub open spec fn qualifies(
    os: Seq<Object>,
    noun: Seq<char>,
    from: Option<usize>,
    max: Distance,
    i: int,
) -> bool {
    &&& has_label(os[i], noun)
    &&& distance(os, from, Option::Some(i as usize)).spec_rank() <= max.spec_rank()
}

/// The entities among the first `n` that qualify, in order.
pub open spec fn matches_upto(
    os: Seq<Object>,
    noun: Seq<char>,
    from: Option<usize>,
    max: Distance,
    n: int,
) -> Seq<usize>
    decreases n,
{
    if n <= 0 {
        Seq::empty()
    } else {
        let m = matches_upto(os, noun, from, max, n - 1);
        if qualifies(os, noun, from, max, n - 1) {
            m.push((n - 1) as usize)
        } else {
            m
        }
    }
}

/// Nothing, the one entity, or ambiguity, after the number of matches.
pub open spec fn classify(m: Seq<usize>) -> AmbiguousOption<usize> {
    if m.len() == 0 {
        AmbiguousOption::Nothing
    } else if m.len() == 1 {
        AmbiguousOption::One(m[0])
    } else {
        AmbiguousOption::Ambiguous
    }
}

/// The entity that `noun` names within `max` of `from`.
pub open spec fn resolve(
    os: Seq<Object>,
    noun: Seq<char>,
    from: Option<usize>,
    max: Distance,
) -> AmbiguousOption<usize> {
    classify(matches_upto(os, noun, from, max, os.len() as int))
}

/// Entity `i` lies directly in `c`.
pub open spec fn in_container(os: Seq<Object>, c: usize, i: int) -> bool {
    holds(os, Option::Some(c), Option::Some(i as usize))
}

/// Total weight of the entities among the first `n` that lie directly in `c`.
pub open spec fn weight_sum(os: Seq<Object>, c: usize, n: int) -> int
    decreases n,
{
    if n <= 0 {
        0
    } else if in_container(os, c, n - 1) {
        weight_sum(os, c, n - 1) + os[n - 1].weight
    } else {
        weight_sum(os, c, n - 1)
    }
}

/// Entity `i` is listed among the contents of `c`: the player never is.
pub open spec fn listed(os: Seq<Object>, c: usize, i: int) -> bool {
    i != 0 && in_container(os, c, i)
}

/// Number of listed entities of `c` among the first `n`.
pub open spec fn list_count(os: Seq<Object>, c: usize, n: int) -> nat
    decreases n,
{
    if n <= 0 {
        0
    } else if listed(os, c, n - 1) {
        list_count(os, c, n - 1) + 1
    } else {
        list_count(os, c, n - 1)
    }
}

/// One line per listed entity of `c` among the first `n`.
pub open spec fn list_lines(os: Seq<Object>, c: usize, n: int) -> Seq<char>
    decreases n,
{
    if n <= 0 {
        Seq::empty()
    } else if listed(os, c, n - 1) {
        list_lines(os, c, n - 1) + os[n - 1].description@ + "\n"@
    } else {
        list_lines(os, c, n - 1)
    }
}

/// The listing of what `c` directly holds: empty when it holds nothing.
pub open spec fn listing(os: Seq<Object>, c: usize) -> Seq<char> {
    if list_count(os, c, os.len() as int) == 0 {
        Seq::empty()
    } else {
        os[c as int].contents@ + ":\n"@ + list_lines(os, c, os.len() as int)
    }
}

/// Entity `i` is an actor, other than the player, in the player's room.
pub open spec fn actor_at(os: Seq<Object>, i: int) -> bool {
    &&& i != 0
    &&& holds(os, os[0].location, Option::Some(i as usize))
    &&& os[i].health > 0
}

/// The last actor among the first `n` entities in the player's room.
pub open spec fn actor_upto(os: Seq<Object>, n: int) -> Option<usize>
    decreases n,
{
    if n <= 0 {
        Option::None
    } else if actor_at(os, n - 1) {
        Option::Some((n - 1) as usize)
    } else {
        actor_upto(os, n - 1)
    }
}

/// The narration of moving `obj` to `to`, worded after where it goes and
/// where it was.
pub open spec fn describe(os: Seq<Object>, obj: Option<usize>, to: Option<usize>) -> Seq<char> {
    let obj_loc = loc(os, obj);
    let player_loc = os[0].location;
    if obj is Some && to is Some && player_loc is Some && to == player_loc {
        "You drop "@ + label0(os, obj->0 as int) + ".\n"@
    } else if obj is Some && to is Some && to->0 != 0 {
        if os[to->0 as int].health > 0 {
            "You give "@ + label0(os, obj->0 as int) + " to "@ + label0(os, to->0 as int) + ".\n"@
        } else {
            "You put "@ + label0(os, obj->0 as int) + " in "@ + label0(os, to->0 as int) + ".\n"@
        }
    } else if obj is Some && obj_loc is Some && player_loc is Some && obj_loc == player_loc {
        "You pick up "@ + label0(os, obj->0 as int) + ".\n"@
    } else if obj is Some && obj_loc is Some {
        "You get "@ + label0(os, obj->0 as int) + " from "@ + label0(os, obj_loc->0 as int) + ".\n"@
    } else {
        "How can you drop nothing?.\n"@
    }
}

/// `os` with entity `obj` placed in `to`.
pub open spec fn relocated(os: Seq<Object>, obj: usize, to: Option<usize>) -> Seq<Object> {
    os.update(obj as int, Object { location: to, ..os[obj as int] })
}

/// `obj` cannot go into `to` by weight: alone, or with what `to` holds.
pub open spec fn too_heavy(os: Seq<Object>, obj: usize, to: usize) -> bool {
    os[obj as int].weight > os[to as int].capacity
        || os[obj as int].weight + weight_sum(os, to, os.len() as int) > os[to as int].capacity
}

/// The entities and the narration after moving `obj` to `to`.
pub open spec fn move_result(os: Seq<Object>, obj: Option<usize>, to: Option<usize>) -> (Seq<Object>, Seq<char>) {
    if obj is None {
        (os, Seq::empty())
    } else if to is None {
        (os, "There is nobody to give that to.\n"@)
    } else if os[obj->0 as int].weight > os[to->0 as int].capacity {
        (os, "That is way too heavy.\n"@)
    } else if too_heavy(os, obj->0, to->0) {
        (os, "That would become to heavy.\n"@)
    } else {
        (relocated(os, obj->0, to), describe(os, obj, to))
    }
}

/// Every match among the first `n` entities is an index below `n`.
pub proof fn lemma_matches_below(os: Seq<Object>, noun: Seq<char>, from: Option<usize>, max: Distance, n: int)
    requires
        n <= usize::MAX,
    ensures
        forall|k: int| 0 <= k < matches_upto(os, noun, from, max, n).len()
            ==> #[trigger] matches_upto(os, noun, from, max, n)[k] < n,
    decreases n,
{
    if n > 0 {
        lemma_matches_below(os, noun, from, max, n - 1);
        let m = matches_upto(os, noun, from, max, n - 1);
        if qualifies(os, noun, from, max, n - 1) {
            assert forall|k: int| 0 <= k < m.push((n - 1) as usize).len()
                implies #[trigger] m.push((n - 1) as usize)[k] < n by {
                if k < m.len() {
                    assert(m.push((n - 1) as usize)[k] == m[k]);
                }
            }
        }
    }
}

/// The actor found among the first `n` entities is one of them.
pub proof fn lemma_actor_below(os: Seq<Object>, n: int)
    requires
        n <= usize::MAX,
    ensures
        actor_upto(os, n) matches Option::Some(a) ==> a < n,
    decreases n,
{
    if n > 0 {
        lemma_actor_below(os, n - 1);
    }
}

/// Without listed entities there are no lines.
proof fn lemma_no_lines(os: Seq<Object>, c: usize, n: int)
    requires
        list_count(os, c, n) == 0,
    ensures
        list_lines(os, c, n) == Seq::<char>::empty(),
    decreases n,
{
    if n > 0 {
        lemma_no_lines(os, c, n - 1);
    }
}

impl Object {
    pub(crate) fn new(
        new_labels: Vec<String>,
        new_description: String,
        new_location: Option<usize>,
        new_destination: Option<usize>,
        new_prospect: Option<usize>,
        new_details: String,
        new_contents: String,
        new_text_go: String,
        new_weight: isize,
        new_capacity: isize,
        new_health: isize,
    ) -> (r: Object)
        ensures
            r == (Object {
                labels: new_labels,
                description: new_description,
                location: new_location,
                destination: new_destination,
                prospect: new_prospect,
                details: new_details,
                contents: new_contents,
                text_go: new_text_go,
                weight: new_weight,
                capacity: new_capacity,
                health: new_health,
            }),
    {
        Object {
            labels: new_labels,
            description: new_description,
            location: new_location,
            destination: new_destination,
            prospect: new_prospect,
            details: new_details,
            contents: new_contents,
            text_go: new_text_go,
            weight: new_weight,
            capacity: new_capacity,
            health: new_health,
        }
    }
}

/// The entity store.
#[derive(Debug)]
pub struct World {
    pub objects: Vec<Object>,
}

impl Default for World {
    fn default() -> (r: World)
        ensures
            r.objects@.len() == 0,
    {
        Self::new()
    }
}

impl World {
    pub open spec fn wf(&self) -> bool {
        well_formed(self.objects@)
    }

    /// Well formed, with a player entity that stands somewhere.
    pub open spec fn playable(&self) -> bool {
        &&& self.wf()
        &&& self.objects@.len() > 0
        &&& self.objects@[0].location is Some
    }

    pub fn new() -> (r: World)
        ensures
            r.objects@.len() == 0,
            r.wf(),
    {
        World { objects: Vec::new() }
    }

    /// Whether the world is well formed and its player stands somewhere.
    pub fn is_playable(&self) -> (r: bool)
        ensures
            r == self.playable(),
    {
        let n = self.objects.len();
        let mut i: usize = 0;
        while i < n
            invariant
                n == self.objects@.len(),
                i <= n,
                forall|j: int|
                    0 <= j < i ==> {
                        &&& (#[trigger] self.objects@[j]).labels@.len() > 0
                        &&& valid_ref(self.objects@, self.objects@[j].location)
                        &&& valid_ref(self.objects@, self.objects@[j].destination)
                        &&& valid_ref(self.objects@, self.objects@[j].prospect)
                    },
            decreases n - i,
        {
            let o = &self.objects[i];
            let ok = o.labels.len() > 0 && Self::ref_in(o.location, n) && Self::ref_in(o.destination, n)
                && Self::ref_in(o.prospect, n);
            if !ok {
                proof {
                    let k = i as int;
                    assert(!(self.objects@[k].labels@.len() > 0 && valid_ref(self.objects@, self.objects@[k].location)
                        && valid_ref(self.objects@, self.objects@[k].destination) && valid_ref(
                        self.objects@,
                        self.objects@[k].prospect,
                    )));
                }
                return false;
            }
            i = i + 1;
        }
        n > 0 && self.objects[LOC_PLAYER].location.is_some()
    }

    fn ref_in(x: Option<usize>, n: usize) -> (r: bool)
        ensures
            r == match x {
                Option::Some(i) => i < n,
                Option::None => true,
            },
    {
        match x {
            Some(i) => i < n,
            None => true,
        }
    }

    pub(crate) fn location_of(&self, x: Option<usize>) -> (r: Option<usize>)
        requires
            valid_ref(self.objects@, x),
        ensures
            r == loc(self.objects@, x),
    {
        match x {
            Some(a) => self.objects[a].location,
            None => None,
        }
    }

    /// Whether `object` lies directly in `container`.
    pub fn is_holding(&self, container: Option<usize>, object: Option<usize>) -> (r: bool)
        requires
            valid_ref(self.objects@, object),
        ensures
            r == holds(self.objects@, container, object),
    {
        object.is_some() && self.location_of(object) == container
    }

    /// The first entity directly in `from_opt` whose prospect is `to_opt`.
    pub(crate) fn get_passage_index(&self, from_opt: Option<usize>, to_opt: Option<usize>) -> (r: Option<usize>)
        ensures
            r is None <==> !has_passage(self.objects@, from_opt, to_opt),
            r == (if from_opt is Some && to_opt is Some {
                passage_scan(self.objects@, from_opt, to_opt, 0)
            } else {
                Option::None
            }),
            r matches Some(p) ==> {
                &&& p < self.objects@.len()
                &&& holds(self.objects@, from_opt, r)
                &&& self.objects@[p as int].prospect == to_opt
            },
    {
        if from_opt.is_some() && to_opt.is_some() {
            let n = self.objects.len();
            let mut pos: usize = 0;
            while pos < n
                invariant
                    n == self.objects@.len(),
                    pos <= n,
                    from_opt is Some,
                    to_opt is Some,
                    passage_scan(self.objects@, from_opt, to_opt, 0) == passage_scan(self.objects@, from_opt, to_opt, pos as int),
                    forall|q: int|
                        0 <= q < pos ==> !(#[trigger] holds(self.objects@, from_opt, Option::Some(q as usize))
                            && self.objects@[q].prospect == to_opt),
                decreases n - pos,
            {
                if self.is_holding(from_opt, Some(pos)) && self.objects[pos].prospect == to_opt {
                    assert(holds(self.objects@, from_opt, Option::Some(pos as int as usize)));
                    return Some(pos);
                }
                pos = pos + 1;
            }
            proof {
                assert forall|p: int|
                    0 <= p < self.objects@.len() && #[trigger] holds(self.objects@, from_opt, Option::Some(p as usize))
                        implies self.objects@[p].prospect != to_opt by {
                    assert(p < pos);
                }
            }
            None
        } else {
            None
        }
    }

    /// Whether some label of `object` equals `noun` once both are case folded.
    pub(crate) fn object_has_label(&self, object: &Object, noun: &str) -> (r: bool)
        ensures
            r == has_label(*object, noun@),
    {
        let folded_noun = lowercase(noun);
        let n = object.labels.len();
        let mut k: usize = 0;
        while k < n
            invariant
                n == object.labels@.len(),
                k <= n,
                folded_noun@ == lower_of(noun@),
                forall|j: int| 0 <= j < k ==> lower_of(#[trigger] object.labels@[j]@) != lower_of(noun@),
            decreases n - k,
        {
            let folded = lowercase(object.labels[k].as_str());
            if same_text(folded.as_str(), folded_noun.as_str()) {
                assert(lower_of(object.labels@[k as int]@) == lower_of(noun@));
                return true;
            }
            k = k + 1;
        }
        false
    }

    /// Resolves `noun` among the entities within `max_distance` of `from`:
    /// no match, exactly one, or an ambiguity.
    pub fn get_object_index(&self, noun: &str, from: Option<usize>, max_distance: Distance) -> (r:
        AmbiguousOption<usize>)
        requires
            self.wf(),
            valid_ref(self.objects@, from),
        ensures
            r == resolve(self.objects@, noun@, from, max_distance),
            r matches AmbiguousOption::One(i) ==> i < self.objects@.len(),
    {
        let n = self.objects.len();
        proof {
            lemma_matches_below(self.objects@, noun@, from, max_distance, n as int);
        }
        let mut result: AmbiguousOption<usize> = AmbiguousOption::Nothing;
        let mut pos: usize = 0;
        while pos < n
            invariant
                n == self.objects@.len(),
                pos <= n,
                self.wf(),
                valid_ref(self.objects@, from),
                result == classify(matches_upto(self.objects@, noun@, from, max_distance, pos as int)),
            decreases n - pos,
        {
            if self.object_has_label(&self.objects[pos], noun) && self.get_distance(
                from,
                Some(pos),
            ).within(&max_distance) {
                result =
                match result {
                    AmbiguousOption::Nothing => AmbiguousOption::One(pos),
                    _ => AmbiguousOption::Ambiguous,
                };
            }
            pos = pos + 1;
        }
        result
    }

    /// Total weight of what `container` directly holds.
    fn weight_of_contents(&self, container: usize) -> (r: i128)
        ensures
            r == weight_sum(self.objects@, container, self.objects@.len() as int),
            -(self.objects@.len() as int) * 0x8000_0000_0000_0000 <= r,
            r <= (self.objects@.len() as int) * 0x7fff_ffff_ffff_ffff,
    {
        let n = self.objects.len();
        let mut sum: i128 = 0;
        let mut pos: usize = 0;
        while pos < n
            invariant
                n == self.objects@.len(),
                pos <= n,
                sum == weight_sum(self.objects@, container, pos as int),
                -(pos as int) * 0x8000_0000_0000_0000 <= sum <= (pos as int) * 0x7fff_ffff_ffff_ffff,
            decreases n - pos,
        {
            if self.is_holding(Some(container), Some(pos)) {
                sum = sum + self.objects[pos].weight as i128;
            }
            pos = pos + 1;
        }
        sum
    }

    /// The listing of what `location` directly holds, and how many
    /// entities it names (at most `i32::MAX`).
    pub fn list_objects_at_location(&self, location: usize) -> (r: (String, i32))
        requires
            location < self.objects@.len(),
        ensures
            r.0@ == listing(self.objects@, location),
            r.1 as int == if list_count(self.objects@, location, self.objects@.len() as int)
                <= i32::MAX {
                list_count(self.objects@, location, self.objects@.len() as int) as int
            } else {
                i32::MAX as int
            },
    {
        let mut output = String::new();
        let mut count: i32 = 0;
        let n = self.objects.len();
        let mut pos: usize = 0;
        while pos < n
            invariant
                n == self.objects@.len(),
                pos <= n,
                location < n,
                output@ == if list_count(self.objects@, location, pos as int) == 0 {
                    Seq::empty()
                } else {
                    self.objects@[location as int].contents@ + ":\n"@ + list_lines(
                        self.objects@,
                        location,
                        pos as int,
                    )
                },
                count as int == if list_count(self.objects@, location, pos as int) <= i32::MAX {
                    list_count(self.objects@, location, pos as int) as int
                } else {
                    i32::MAX as int
                },
            decreases n - pos,
        {
            if pos != LOC_PLAYER && self.is_holding(Some(location), Some(pos)) {
                if count == 0 {
                    output = cat(self.objects[location].contents.as_str(), ":\n");
                    proof {
                        lemma_no_lines(self.objects@, location, pos as int);
                    }
                }
                if count < i32::MAX {
                    count = count + 1;
                }
                output.append(self.objects[pos].description.as_str());
                output.append("\n");
            }
            pos = pos + 1;
        }
        (output, count)
    }

    /// The last actor, other than the player, in the player's room.
    pub fn actor_here(&self) -> (r: Option<usize>)
        requires
            self.wf(),
            self.objects@.len() > 0,
        ensures
            r == actor_upto(self.objects@, self.objects@.len() as int),
            r matches Some(a) ==> a < self.objects@.len(),
    {
        let mut actor_loc: Option<usize> = None;
        let n = self.objects.len();
        let player_loc = self.objects[LOC_PLAYER].location;
        let mut pos: usize = 0;
        while pos < n
            invariant
                n == self.objects@.len(),
                pos <= n,
                n > 0,
                player_loc == self.objects@[0].location,
                actor_loc == actor_upto(self.objects@, pos as int),
            decreases n - pos,
        {
            if self.is_holding(player_loc, Some(pos)) && pos != LOC_PLAYER && self.objects[pos].health
                > 0 {
                actor_loc = Some(pos);
            }
            pos = pos + 1;
        }
        proof {
            lemma_actor_below(self.objects@, n as int);
        }
        actor_loc
    }

    /// The narration of moving `obj_opt` to `to`.
    pub fn describe_move(&self, obj_opt: Option<usize>, to: Option<usize>) -> (r: String)
        requires
            self.wf(),
            self.objects@.len() > 0,
            valid_ref(self.objects@, obj_opt),
            valid_ref(self.objects@, to),
        ensures
            r@ == describe(self.objects@, obj_opt, to),
    {
        let obj_loc = self.location_of(obj_opt);
        let player_loc = self.objects[LOC_PLAYER].location;
        match (obj_opt, obj_loc, to, player_loc) {
            (Some(o), _, Some(t), Some(p)) if t == p => {
                cat3("You drop ", self.objects[o].labels[0].as_str(), ".\n")
            },
            (Some(o), _, Some(t), _) if t != LOC_PLAYER => {
                let mut s = if self.objects[t].health > 0 {
                    String::from_str("You give ")
                } else {
                    String::from_str("You put ")
                };
                s.append(self.objects[o].labels[0].as_str());
                if self.objects[t].health > 0 {
                    s.append(" to ");
                } else {
                    s.append(" in ");
                }
                s.append(self.objects[t].labels[0].as_str());
                s.append(".\n");
                s
            },
            (Some(o), Some(l), _, Some(p)) if l == p => {
                cat3("You pick up ", self.objects[o].labels[0].as_str(), ".\n")
            },
            (Some(o), Some(l), _, _) => {
                let mut s = cat3("You get ", self.objects[o].labels[0].as_str(), " from ");
                s.append(self.objects[l].labels[0].as_str());
                s.append(".\n");
                s
            },
            _ => String::from_str("How can you drop nothing?.\n"),
        }
    }

    /// Moves `obj_opt` into `to` when `to` exists and can bear its weight.
    /// A rejected move leaves every entity as it was.
    pub fn move_object(&mut self, obj_opt: Option<usize>, to: Option<usize>) -> (r: String)
        requires
            old(self).wf(),
            old(self).objects@.len() > 0,
            valid_ref(old(self).objects@, obj_opt),
            valid_ref(old(self).objects@, to),
        ensures
            (final(self).objects@, r@) == move_result(old(self).objects@, obj_opt, to),
            final(self).wf(),
            final(self).objects@.len() == old(self).objects@.len(),
            old(self).objects@[0].location is Some ==> final(self).objects@[0].location is Some,
            obj_opt is Some && to is Some && too_heavy(old(self).objects@, obj_opt->0, to->0) ==> {
                &&& final(self).objects@ == old(self).objects@
                &&& (r@ == "That is way too heavy.\n"@ || r@ == "That would become to heavy.\n"@)
            },
    {
        match (obj_opt, to) {
            (None, _) => String::new(),
            (Some(_), None) => String::from_str("There is nobody to give that to.\n"),
            (Some(o), Some(t)) => {
                let weight = self.objects[o].weight;
                let capacity = self.objects[t].capacity;
                let n = self.objects.len();
                proof {
                    assert(n <= usize::MAX);
                    assert(usize::MAX <= 0xffff_ffff_ffff_ffff);
                }
                if weight > capacity {
                    String::from_str("That is way too heavy.\n")
                } else if weight as i128 + self.weight_of_contents(t) > capacity as i128 {
                    String::from_str("That would become to heavy.\n")
                } else {
                    let output = self.describe_move(obj_opt, to);
                    self.objects[o].location = Some(t);
                    proof {
                        assert(self.objects@ =~= relocated(old(self).objects@, o, to));
                        assert forall|i: int| 0 <= i < self.objects@.len() implies {
                            &&& (#[trigger] self.objects@[i]).labels@.len() > 0
                            &&& valid_ref(self.objects@, self.objects@[i].location)
                            &&& valid_ref(self.objects@, self.objects@[i].destination)
                            &&& valid_ref(self.objects@, self.objects@[i].prospect)
                        } by {
                            assert(old(self).objects@[i].labels@.len() > 0);
                        }
                    }
                    output
                }
            },
        }
    }

    /// Classifies how reachable `to` is from `from`.
    pub fn get_distance(&self, from: Option<usize>, to: Option<usize>) -> (r: Distance)
        requires
            valid_ref(self.objects@, from),
            valid_ref(self.objects@, to),
            self.wf(),
        ensures
            r == distance(self.objects@, from, to),
    {
        let from_loc = self.location_of(from);
        let to_loc = self.location_of(to);
        if to.is_none() {
            Distance::UnknownObject
        } else if to == from {
            Distance::Me
        } else if from.is_some() && self.is_holding(from, to) {
            Distance::Held
        } else if self.is_holding(to, from) {
            Distance::Location
        } else if from_loc.is_some() && self.is_holding(from_loc, to) {
            Distance::Here
        } else if from.is_some() && self.is_holding(from, to_loc) {
            Distance::HeldContained
        } else if from_loc.is_some() && self.is_holding(from_loc, to_loc) {
            Distance::HereContained
        } else if self.get_passage_index(from_loc, to).is_some() {
            Distance::OverThere
        } else {
            Distance::NotHere
        }
    }
}

} // verus!
