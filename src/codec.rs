//! The save form of a world: entities refer to one another by canonical
//! label instead of by index.
use vstd::prelude::*;
use vstd::string::StringExecFns;

use crate::text::{cat3, same_text};
use crate::world::{label0, valid_ref, well_formed, Object, World};

verus! {

/// An entity as saved: references hold the canonical label of the entity
/// referred to, or nothing.
#[derive(Debug)]
pub struct SavedObject {
    pub labels: Vec<String>,
    pub description: String,
    pub location: String,
    pub destination: String,
    pub prospect: String,
    pub details: String,
    pub contents: String,
    pub text_go: String,
    pub weight: isize,
    pub capacity: isize,
    pub health: isize,
}

/// A saved world: its entities, the player first.
#[derive(Debug)]
pub struct SavedWorld {
    pub objects: Vec<SavedObject>,
}

/// Why a saved world could not be turned into a world.
#[derive(Debug)]
pub enum ParseError {
    /// A reference names no entity; the message says which field and text.
    UnknownName(String),
}

impl ParseError {
    pub open spec fn spec_message(&self) -> Seq<char> {
        match self {
            ParseError::UnknownName(m) => m@,
        }
    }

    /// The text of the error.
    pub fn to_string(&self) -> (r: String)
        ensures
            r@ == self.spec_message(),
    {
        match self {
            ParseError::UnknownName(message) => message.clone(),
        }
    }
}

/// The prospect a saved entity has when the field is absent.
pub open spec fn spec_default_prospect() -> Seq<char> {
    ""@
}

pub fn default_prospect() -> (r: String)
    ensures
        r@ == spec_default_prospect(),
{
    String::from_str("")
}

/// Whether `value` is the default prospect, left out when saving.
pub fn is_default_prospect(value: &str) -> (r: bool)
    ensures
        r == (value@ == spec_default_prospect()),
{
    same_text(value, "")
}

/// The details a saved entity has when the field is absent.
pub open spec fn spec_default_details() -> Seq<char> {
    "You see nothing special."@
}

pub fn default_details() -> (r: String)
    ensures
        r@ == spec_default_details(),
{
    String::from_str("You see nothing special.")
}

/// Whether `value` is the default details, left out when saving.
pub fn is_default_details(value: &str) -> (r: bool)
    ensures
        r == (value@ == spec_default_details()),
{
    same_text(value, "You see nothing special.")
}

/// The contents a saved entity has when the field is absent.
pub open spec fn spec_default_contents() -> Seq<char> {
    "You see"@
}

pub fn default_contents() -> (r: String)
    ensures
        r@ == spec_default_contents(),
{
    String::from_str("You see")
}

/// Whether `value` is the default contents, left out when saving.
pub fn is_default_contents(value: &str) -> (r: bool)
    ensures
        r == (value@ == spec_default_contents()),
{
    same_text(value, "You see")
}

/// The text go a saved entity has when the field is absent.
pub open spec fn spec_default_text_go() -> Seq<char> {
    "You can't get much closer than this."@
}

pub fn default_text_go() -> (r: String)
    ensures
        r@ == spec_default_text_go(),
{
    String::from_str("You can't get much closer than this.")
}

/// Whether `value` is the default text go, left out when saving.
pub fn is_default_text_go(value: &str) -> (r: bool)
    ensures
        r == (value@ == spec_default_text_go()),
{
    same_text(value, "You can't get much closer than this.")
}

/// The weight a saved entity has when the field is absent.
pub const DEF_WEIGHT: isize = 99;

pub fn default_weight() -> (r: isize)
    ensures
        r == DEF_WEIGHT,
{
    DEF_WEIGHT
}

/// Whether `value` is the default weight, left out when saving.
pub fn is_default_weight(value: &isize) -> (r: bool)
    ensures
        r == (*value == DEF_WEIGHT),
{
    *value == DEF_WEIGHT
}

/// The capacity a saved entity has when the field is absent.
pub const DEF_CAPACITY: isize = 0;

pub fn default_capacity() -> (r: isize)
    ensures
        r == DEF_CAPACITY,
{
    DEF_CAPACITY
}

/// Whether `value` is the default capacity, left out when saving.
pub fn is_default_capacity(value: &isize) -> (r: bool)
    ensures
        r == (*value == DEF_CAPACITY),
{
    *value == DEF_CAPACITY
}

/// The health a saved entity has when the field is absent.
pub const DEF_HEALTH: isize = 0;

pub fn default_health() -> (r: isize)
    ensures
        r == DEF_HEALTH,
{
    DEF_HEALTH
}

/// Whether `value` is the default health, left out when saving.
pub fn is_default_health(value: &isize) -> (r: bool)
    ensures
        r == (*value == DEF_HEALTH),
{
    *value == DEF_HEALTH
}

/// The text that stands for reference `r` in the save form.
pub open spec fn encode_ref(os: Seq<Object>, r: Option<usize>) -> Seq<char> {
    match r {
        Option::Some(i) => label0(os, i as int),
        Option::None => Seq::empty(),
    }
}

/// `s` is the save form of entity `i` of `os`.
pub open spec fn encodes_object(os: Seq<Object>, i: int, s: SavedObject) -> bool {
    let o = os[i];
    &&& s.labels@ == o.labels@
    &&& s.description@ == o.description@
    &&& s.location@ == encode_ref(os, o.location)
    &&& s.destination@ == encode_ref(os, o.destination)
    &&& s.prospect@ == encode_ref(os, o.prospect)
    &&& s.details@ == o.details@
    &&& s.contents@ == o.contents@
    &&& s.text_go@ == o.text_go@
    &&& s.weight == o.weight
    &&& s.capacity == o.capacity
    &&& s.health == o.health
}

/// `ss` is the save form of `os`, entity by entity.
pub open spec fn encodes(os: Seq<Object>, ss: Seq<SavedObject>) -> bool {
    &&& ss.len() == os.len()
    &&& forall|i: int| 0 <= i < os.len() ==> encodes_object(os, i, #[trigger] ss[i])
}

/// Every saved entity has a canonical label.
pub open spec fn labelled(ss: Seq<SavedObject>) -> bool {
    forall|i: int| 0 <= i < ss.len() ==> (#[trigger] ss[i]).labels@.len() > 0
}

/// The canonical label of saved entity `k`.
pub open spec fn canonical(ss: Seq<SavedObject>, k: int) -> Seq<char> {
    ss[k].labels@[0]@
}

/// The first saved entity, from index `k` on, whose canonical label is `text`.
pub open spec fn find_label(ss: Seq<SavedObject>, text: Seq<char>, k: int) -> Option<usize>
    decreases ss.len() - k,
{
    if k < 0 || k >= ss.len() {
        Option::None
    } else if canonical(ss, k) == text {
        Option::Some(k as usize)
    } else {
        find_label(ss, text, k + 1)
    }
}

/// A reference text can be resolved: it is empty or names an entity.
pub open spec fn resolvable(ss: Seq<SavedObject>, text: Seq<char>) -> bool {
    text.len() == 0 || find_label(ss, text, 0) is Some
}

/// The index a reference text stands for.
pub open spec fn decode_ref(ss: Seq<SavedObject>, text: Seq<char>) -> Option<usize> {
    if text.len() == 0 {
        Option::None
    } else {
        find_label(ss, text, 0)
    }
}

/// Why saved entity `o` cannot be decoded, if it cannot: its location is
/// checked first, then its destination, then its prospect.
pub open spec fn object_error(ss: Seq<SavedObject>, o: SavedObject) -> Option<Seq<char>> {
    if !resolvable(ss, o.location@) {
        Option::Some("Unknown location '"@ + o.location@ + "'"@)
    } else if !resolvable(ss, o.destination@) {
        Option::Some("Unknown destination '"@ + o.destination@ + "'"@)
    } else if !resolvable(ss, o.prospect@) {
        Option::Some("Unknown prospect '"@ + o.prospect@ + "'"@)
    } else {
        Option::None
    }
}

/// `d` is saved entity `o` decoded: references become indices, and an
/// empty prospect takes the destination.
pub open spec fn decodes_object(ss: Seq<SavedObject>, o: SavedObject, d: Object) -> bool {
    let destination = decode_ref(ss, o.destination@);
    &&& d.labels@ == o.labels@
    &&& d.description@ == o.description@
    &&& d.location == decode_ref(ss, o.location@)
    &&& d.destination == destination
    &&& d.prospect == if o.prospect@.len() == 0 {
        destination
    } else {
        decode_ref(ss, o.prospect@)
    }
    &&& d.details@ == o.details@
    &&& d.contents@ == o.contents@
    &&& d.text_go@ == o.text_go@
    &&& d.weight == o.weight
    &&& d.capacity == o.capacity
    &&& d.health == o.health
}

/// The first error among the first `n` saved entities, if any.
pub open spec fn first_error(ss: Seq<SavedObject>, n: int) -> Option<Seq<char>>
    decreases n,
{
    if n <= 0 {
        Option::None
    } else if first_error(ss, n - 1) is Some {
        first_error(ss, n - 1)
    } else {
        object_error(ss, ss[n - 1])
    }
}

/// `os` is the decoding of every entity of `ss`.
pub open spec fn decodes(ss: Seq<SavedObject>, os: Seq<Object>) -> bool {
    &&& os.len() == ss.len()
    &&& forall|i: int| 0 <= i < ss.len() ==> decodes_object(ss, ss[i], #[trigger] os[i])
}

fn clone_labels(labels: &Vec<String>) -> (r: Vec<String>)
    ensures
        r@ == labels@,
{
    let mut r: Vec<String> = Vec::new();
    let n = labels.len();
    let mut k: usize = 0;
    while k < n
        invariant
            n == labels@.len(),
            k <= n,
            r@ == labels@.subrange(0, k as int),
        decreases n - k,
    {
        r.push(labels[k].clone());
        k = k + 1;
    }
    assert(r@ =~= labels@);
    r
}

fn copy_text(s: &String) -> (r: String)
    ensures
        r@ == s@,
{
    s.clone()
}

impl World {
    /// The text that stands for reference `r`: a canonical label, or nothing.
    fn reference_text(&self, r: Option<usize>) -> (t: String)
        requires
            self.wf(),
            valid_ref(self.objects@, r),
        ensures
            t@ == encode_ref(self.objects@, r),
    {
        match r {
            Some(i) => copy_text(&self.objects[i].labels[0]),
            None => String::new(),
        }
    }
}

impl SavedWorld {
    fn new(new_objects: Vec<SavedObject>) -> (r: SavedWorld)
        ensures
            r.objects == new_objects,
    {
        SavedWorld { objects: new_objects }
    }

    /// The save form of `value`.
    pub fn from_world(value: &World) -> (r: SavedWorld)
        requires
            value.wf(),
        ensures
            encodes(value.objects@, r.objects@),
    {
        let mut saved: Vec<SavedObject> = Vec::new();
        let n = value.objects.len();
        let mut i: usize = 0;
        while i < n
            invariant
                n == value.objects@.len(),
                i <= n,
                value.wf(),
                saved@.len() == i,
                forall|j: int| 0 <= j < i ==> encodes_object(value.objects@, j, #[trigger] saved@[j]),
            decreases n - i,
        {
            let item = &value.objects[i];
            proof {
                assert(well_formed(value.objects@));
                assert(value.objects@[i as int].labels@.len() > 0);
            }
            let s = SavedObject {
                labels: clone_labels(&item.labels),
                description: copy_text(&item.description),
                location: value.reference_text(item.location),
                destination: value.reference_text(item.destination),
                prospect: value.reference_text(item.prospect),
                details: copy_text(&item.details),
                contents: copy_text(&item.contents),
                text_go: copy_text(&item.text_go),
                weight: item.weight,
                capacity: item.capacity,
                health: item.health,
            };
            saved.push(s);
            i = i + 1;
        }
        SavedWorld::new(saved)
    }

    /// The first saved entity whose canonical label is `text`.
    fn find_label(&self, text: &String) -> (r: Option<usize>)
        requires
            labelled(self.objects@),
        ensures
            r == find_label(self.objects@, text@, 0),
            r matches Some(k) ==> k < self.objects@.len(),
    {
        let n = self.objects.len();
        let mut k: usize = 0;
        while k < n
            invariant
                n == self.objects@.len(),
                k <= n,
                labelled(self.objects@),
                find_label(self.objects@, text@, 0) == find_label(self.objects@, text@, k as int),
            decreases n - k,
        {
            if same_text(self.objects[k].labels[0].as_str(), text.as_str()) {
                return Some(k);
            }
            k = k + 1;
        }
        None
    }

    /// The index that reference text `text` stands for; `Err` when it is
    /// not empty and names no entity.
    fn resolve_ref(&self, text: &String) -> (r: Result<Option<usize>, ()>)
        requires
            labelled(self.objects@),
        ensures
            r is Ok <==> resolvable(self.objects@, text@),
            r matches Ok(x) ==> x == decode_ref(self.objects@, text@) && valid_ref_len(self.objects@.len(), x),
    {
        if text.as_str().is_empty() {
            Ok(None)
        } else {
            match self.find_label(text) {
                Some(k) => Ok(Some(k)),
                None => Err(()),
            }
        }
    }

    /// The world this save form describes. Fails with `UnknownName` on the
    /// first entity, in order, one of whose references names no entity.
    pub fn to_world(&self) -> (r: Result<World, ParseError>)
        requires
            labelled(self.objects@),
        ensures
            first_error(self.objects@, self.objects@.len() as int) is None <==> r is Ok,
            r matches Ok(w) ==> decodes(self.objects@, w.objects@) && w.wf(),
            r matches Err(e) ==> first_error(self.objects@, self.objects@.len() as int) == Option::Some(
                e.spec_message(),
            ),
    {
        let mut objects: Vec<Object> = Vec::new();
        let n = self.objects.len();
        let mut i: usize = 0;
        while i < n
            invariant
                n == self.objects@.len(),
                i <= n,
                labelled(self.objects@),
                first_error(self.objects@, i as int) is None,
                objects@.len() == i,
                forall|j: int| 0 <= j < i ==> decodes_object(self.objects@, self.objects@[j], #[trigger] objects@[j]),
                forall|j: int| 0 <= j < i ==> {
                    &&& valid_ref_len(n as nat, (#[trigger] objects@[j]).location)
                    &&& valid_ref_len(n as nat, objects@[j].destination)
                    &&& valid_ref_len(n as nat, objects@[j].prospect)
                    &&& objects@[j].labels@.len() > 0
                },
            decreases n - i,
        {
            let item = &self.objects[i];
            proof {
                assert(self.objects@[i as int].labels@.len() > 0);
            }
            let location = match self.resolve_ref(&item.location) {
                Ok(x) => x,
                Err(_) => {
                    proof {
                        lemma_first_error_stays(self.objects@, i as int + 1, n as int);
                    }
                    return Err(
                        ParseError::UnknownName(cat3("Unknown location '", item.location.as_str(), "'")),
                    );
                },
            };
            let destination = match self.resolve_ref(&item.destination) {
                Ok(x) => x,
                Err(_) => {
                    proof {
                        lemma_first_error_stays(self.objects@, i as int + 1, n as int);
                    }
                    return Err(
                        ParseError::UnknownName(
                            cat3("Unknown destination '", item.destination.as_str(), "'"),
                        ),
                    );
                },
            };
            let prospect = match self.resolve_ref(&item.prospect) {
                Ok(x) => x,
                Err(_) => {
                    proof {
                        lemma_first_error_stays(self.objects@, i as int + 1, n as int);
                    }
                    return Err(
                        ParseError::UnknownName(cat3("Unknown prospect '", item.prospect.as_str(), "'")),
                    );
                },
            };
            // A passage without a prospect leads toward where it leads to.
            let prospect = if item.prospect.as_str().is_empty() {
                destination
            } else {
                prospect
            };
            let object = Object::new(
                clone_labels(&item.labels),
                copy_text(&item.description),
                location,
                destination,
                prospect,
                copy_text(&item.details),
                copy_text(&item.contents),
                copy_text(&item.text_go),
                item.weight,
                item.capacity,
                item.health,
            );
            objects.push(object);
            i = i + 1;
        }
        let w = World { objects };
        proof {
            assert forall|j: int| 0 <= j < w.objects@.len() implies {
                &&& (#[trigger] w.objects@[j]).labels@.len() > 0
                &&& valid_ref(w.objects@, w.objects@[j].location)
                &&& valid_ref(w.objects@, w.objects@[j].destination)
                &&& valid_ref(w.objects@, w.objects@[j].prospect)
            } by {
                assert(valid_ref_len(n as nat, w.objects@[j].location));
            }
        }
        Ok(w)
    }
}

/// Once an error is found among the first `m` entities, it stays the first.
proof fn lemma_first_error_stays(ss: Seq<SavedObject>, m: int, n: int)
    requires
        first_error(ss, m) is Some,
        m <= n,
    ensures
        first_error(ss, n) == first_error(ss, m),
    decreases n - m,
{
    if m < n {
        lemma_first_error_stays(ss, m, n - 1);
    }
}

/// `x` is absent or below `n`.
pub open spec fn valid_ref_len(n: nat, x: Option<usize>) -> bool {
    match x {
        Option::Some(i) => i < n,
        Option::None => true,
    }
}

} // verus!
