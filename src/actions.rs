//! The command handlers: each resolves the player's words against the
//! world, validates, and narrates; only `move_object` and `move_player`
//! change where things are.
use vstd::prelude::*;
use vstd::string::StringExecFns;

use crate::command::{verb_name, Command};
use crate::text::{cat, cat3, same_text};
use crate::world::{
    actor_upto, distance, label0, list_count, listing, loc, move_result, passage_scan, relocated,
    resolve, valid_ref, AmbiguousOption, Distance, Object, World, LOC_PLAYER,
};

verus! {

/// What the player's words name among the visible entities, or the
/// narration of why they name nothing.
pub open spec fn visible(os: Seq<Object>, message: Seq<char>, noun: Seq<char>) -> (Seq<char>, Option<usize>) {
    let over_there = resolve(os, noun, Option::Some(0), Distance::OverThere);
    let not_here = resolve(os, noun, Option::Some(0), Distance::NotHere);
    match (over_there, not_here) {
        (AmbiguousOption::Nothing, AmbiguousOption::Nothing) => (
            "I don't understand "@ + message + ".\n"@,
            Option::None,
        ),
        (AmbiguousOption::Nothing, AmbiguousOption::One(_)) => (
            "You don't see any '"@ + noun + "' here.\n"@,
            Option::None,
        ),
        (AmbiguousOption::One(i), _) => (Seq::empty(), Option::Some(i)),
        _ => ("Please be more specific about which "@ + noun + " you mean.\n"@, Option::None),
    }
}

/// What the player's words name among the things `from` holds, directly
/// or in something it holds, or the narration of why they name nothing.
pub open spec fn possession(os: Seq<Object>, from: Option<usize>, verb: Seq<char>, noun: Seq<char>) -> (
    Seq<char>,
    Option<usize>,
) {
    let held = resolve(os, noun, from, Distance::HeldContained);
    let not_here = resolve(os, noun, from, Distance::NotHere);
    let not_understood = "I don't understand what you want to "@ + verb + ".\n"@;
    match from {
        Option::None => (not_understood, Option::None),
        Option::Some(f) => match held {
            AmbiguousOption::Nothing => if not_here is Nothing {
                (not_understood, Option::None)
            } else if f == 0 {
                ("You are not holding any "@ + noun + ".\n"@, Option::None)
            } else {
                (
                    "There appears to be no "@ + noun + " you can get from "@ + label0(os, f as int)
                        + ".\n"@,
                    Option::None,
                )
            },
            AmbiguousOption::One(h) => if h == f {
                ("You should not be doing that to "@ + label0(os, h as int) + ".\n"@, Option::None)
            } else {
                (Seq::empty(), Option::Some(h))
            },
            AmbiguousOption::Ambiguous => (
                "Please be more specific about which "@ + noun + " you want to "@ + verb + ".\n"@,
                Option::None,
            ),
        },
    }
}

/// The room the player stands in.
pub open spec fn player_room(os: Seq<Object>) -> usize {
    os[0].location->0
}

/// The narration of looking around the player's room.
pub open spec fn look_around_text(os: Seq<Object>) -> Seq<char> {
    let room = player_room(os);
    label0(os, room as int) + "\nYou are in "@ + os[room as int].description@ + ".\n"@ + listing(os, room)
}

/// The narration of looking at what `noun` names.
pub open spec fn look_text(os: Seq<Object>, noun: Seq<char>) -> Seq<char> {
    if noun == "around"@ || noun.len() == 0 {
        look_around_text(os)
    } else {
        let (vis, obj) = visible(os, "what you want to look at"@, noun);
        match distance(os, Option::Some(0), obj) {
            Distance::HereContained => vis + "Hard to see, you should try to get it first.\n"@,
            Distance::OverThere => vis + "Too far away, move closer please.\n"@,
            Distance::NotHere => vis + "You don't see any "@ + noun + " here.\n"@,
            Distance::UnknownObject => vis,
            _ => vis + os[obj->0 as int].details@ + "\n"@ + listing(os, obj->0) + "\n"@,
        }
    }
}

/// The world and narration after trying to take what `noun` names.
pub open spec fn get_result(os: Seq<Object>, noun: Seq<char>) -> (Seq<Object>, Seq<char>) {
    let (vis, obj) = visible(os, "what you want to get"@, noun);
    match distance(os, Option::Some(0), obj) {
        Distance::Me => (os, vis + "You should not be doing that to yourself.\n"@),
        Distance::Held => (os, vis + "You already have "@ + os[obj->0 as int].description@ + ".\n"@),
        Distance::OverThere => (os, vis + "Too far away, move closer please.\n"@),
        Distance::UnknownObject => (os, vis),
        _ => {
            let obj_loc = loc(os, obj);
            if obj_loc is Some && os[obj_loc->0 as int].health > 0 {
                (os, vis + "You should ask "@ + label0(os, obj_loc->0 as int) + " nicely.\n"@)
            } else {
                move_result(os, obj, Option::Some(0))
            }
        },
    }
}

/// The world and narration after handing `idx`, found with narration
/// `found`, to `to`.
pub open spec fn hand_over(os: Seq<Object>, found: (Seq<char>, Option<usize>), to: Option<usize>) -> (
    Seq<Object>,
    Seq<char>,
) {
    let (os2, m) = move_result(os, found.1, to);
    (os2, found.0 + m)
}

/// The world and narration after asking the actor here for what `noun` names.
pub open spec fn ask_result(os: Seq<Object>, noun: Seq<char>) -> (Seq<Object>, Seq<char>) {
    let actor = actor_upto(os, os.len() as int);
    hand_over(os, possession(os, actor, "ask"@, noun), Option::Some(0))
}

/// The world and narration after dropping what `noun` names.
pub open spec fn drop_result(os: Seq<Object>, noun: Seq<char>) -> (Seq<Object>, Seq<char>) {
    hand_over(os, possession(os, Option::Some(0), "drop"@, noun), os[0].location)
}

/// The world and narration after giving what `noun` names to the actor here.
pub open spec fn give_result(os: Seq<Object>, noun: Seq<char>) -> (Seq<Object>, Seq<char>) {
    let actor = actor_upto(os, os.len() as int);
    hand_over(os, possession(os, Option::Some(0), "give"@, noun), actor)
}

/// The narration of what the player carries.
pub open spec fn inventory_text(os: Seq<Object>) -> Seq<char> {
    if list_count(os, 0, os.len() as int) == 0 {
        "You are empty handed.\n"@
    } else {
        listing(os, 0)
    }
}

/// The world and narration after the player passes through `passage`.
pub open spec fn traverse(os: Seq<Object>, passage: usize) -> (Seq<Object>, Seq<char>) {
    let go_text = os[passage as int].text_go@ + "\n"@;
    let dst = os[passage as int].destination;
    if dst is Some {
        let os2 = relocated(os, 0, dst);
        (os2, go_text + "\n"@ + look_around_text(os2))
    } else {
        (os, go_text)
    }
}

/// The world and narration after going where `noun` names.
pub open spec fn go_result(os: Seq<Object>, noun: Seq<char>) -> (Seq<Object>, Seq<char>) {
    let (vis, obj) = visible(os, "where you want to go"@, noun);
    match distance(os, Option::Some(0), obj) {
        Distance::OverThere => traverse(
            os,
            passage_scan(os, os[0].location, obj, 0)->0,
        ),
        Distance::NotHere => (os, "You don't see any "@ + noun + " here.\n"@),
        Distance::UnknownObject => (os, vis),
        _ => traverse(os, obj->0),
    }
}

/// The world and narration after one command.
pub open spec fn step(os: Seq<Object>, command: Command) -> (Seq<Object>, Seq<char>) {
    match command {
        Command::Ask(noun) => ask_result(os, noun@),
        Command::Drop(noun) => drop_result(os, noun@),
        Command::Get(noun) => get_result(os, noun@),
        Command::Give(noun) => give_result(os, noun@),
        Command::Go(noun) => go_result(os, noun@),
        Command::Inventory => (os, inventory_text(os)),
        Command::Look(noun) => (os, look_text(os, noun@)),
        Command::Quit => (os, "Quitting.\nThank you for playing!"@),
        Command::Unknown(input) => (os, "I don't know how to '"@ + input@ + "'."@),
    }
}

impl World {
    fn get_visible(&self, message: &str, noun: &str) -> (r: (String, Option<usize>))
        requires
            self.wf(),
            self.objects@.len() > 0,
        ensures
            (r.0@, r.1) == visible(self.objects@, message@, noun@),
            r.1 matches Some(i) ==> i < self.objects@.len(),
    {
        let obj_over_there = self.get_object_index(noun, Some(LOC_PLAYER), Distance::OverThere);
        let obj_not_here = self.get_object_index(noun, Some(LOC_PLAYER), Distance::NotHere);
        match (obj_over_there, obj_not_here) {
            (AmbiguousOption::Nothing, AmbiguousOption::Nothing) => (
                cat3("I don't understand ", message, ".\n"),
                None,
            ),
            (AmbiguousOption::Nothing, AmbiguousOption::One(_)) => (
                cat3("You don't see any '", noun, "' here.\n"),
                None,
            ),
            (AmbiguousOption::One(index), _) => (String::new(), Some(index)),
            _ => (cat3("Please be more specific about which ", noun, " you mean.\n"), None),
        }
    }

    /// Finds what `noun` names among the things `from` holds, directly or in
    /// something it holds; the narration says why when nothing is found.
    pub fn get_possession(&mut self, from: Option<usize>, command: Command, noun: &str) -> (r: (
        String,
        Option<usize>,
    ))
        requires
            old(self).wf(),
            valid_ref(old(self).objects@, from),
        ensures
            *final(self) == *old(self),
            (r.0@, r.1) == possession(old(self).objects@, from, verb_name(command), noun@),
            r.1 matches Some(i) ==> i < old(self).objects@.len(),
    {
        let verb = command.to_string();
        match from {
            None => (cat3("I don't understand what you want to ", verb.as_str(), ".\n"), None),
            Some(from_idx) => {
                let object_held = self.get_object_index(noun, from, Distance::HeldContained);
                let object_not_here = self.get_object_index(noun, from, Distance::NotHere);
                match object_held {
                    AmbiguousOption::Nothing => {
                        if matches!(object_not_here, AmbiguousOption::Nothing) {
                            (cat3("I don't understand what you want to ", verb.as_str(), ".\n"), None)
                        } else if from_idx == LOC_PLAYER {
                            (cat3("You are not holding any ", noun, ".\n"), None)
                        } else {
                            let mut s = cat3("There appears to be no ", noun, " you can get from ");
                            s.append(self.objects[from_idx].labels[0].as_str());
                            s.append(".\n");
                            (s, None)
                        }
                    },
                    AmbiguousOption::One(held_idx) => {
                        if held_idx == from_idx {
                            (
                                cat3(
                                    "You should not be doing that to ",
                                    self.objects[held_idx].labels[0].as_str(),
                                    ".\n",
                                ),
                                None,
                            )
                        } else {
                            (String::new(), Some(held_idx))
                        }
                    },
                    AmbiguousOption::Ambiguous => {
                        let mut s = cat3("Please be more specific about which ", noun, " you want to ");
                        s.append(verb.as_str());
                        s.append(".\n");
                        (s, None)
                    },
                }
            },
        }
    }

    /// Hands what `noun` names over to `to`, after looking for it among the
    /// things `from` holds.
    fn hand_over(&mut self, from: Option<usize>, command: Command, noun: &str, to: Option<usize>) -> (r:
        String)
        requires
            old(self).playable(),
            valid_ref(old(self).objects@, from),
            valid_ref(old(self).objects@, to),
        ensures
            (final(self).objects@, r@) == hand_over(
                old(self).objects@,
                possession(old(self).objects@, from, verb_name(command), noun@),
                to,
            ),
            final(self).playable(),
    {
        let (output, object_idx) = self.get_possession(from, command, noun);
        let moved = self.move_object(object_idx, to);
        let mut r = output;
        r.append(moved.as_str());
        r
    }

    /// Asks the actor here for what `noun` names.
    pub fn do_ask(&mut self, noun: &str) -> (r: String)
        requires
            old(self).playable(),
        ensures
            (final(self).objects@, r@) == ask_result(old(self).objects@, noun@),
            final(self).playable(),
    {
        let actor_loc = self.actor_here();
        self.hand_over(actor_loc, Command::Ask(String::from_str("ask")), noun, Some(LOC_PLAYER))
    }

    /// Drops what `noun` names into the player's room.
    pub fn do_drop(&mut self, noun: &str) -> (r: String)
        requires
            old(self).playable(),
        ensures
            (final(self).objects@, r@) == drop_result(old(self).objects@, noun@),
            final(self).playable(),
    {
        let player_loc = self.objects[LOC_PLAYER].location;
        self.hand_over(Some(LOC_PLAYER), Command::Drop(String::from_str("drop")), noun, player_loc)
    }

    /// Gives what `noun` names to the actor here.
    pub fn do_give(&mut self, noun: &str) -> (r: String)
        requires
            old(self).playable(),
        ensures
            (final(self).objects@, r@) == give_result(old(self).objects@, noun@),
            final(self).playable(),
    {
        let actor_loc = self.actor_here();
        self.hand_over(Some(LOC_PLAYER), Command::Give(String::from_str("give")), noun, actor_loc)
    }

    /// Takes what `noun` names, unless it is the player, already held, out
    /// of reach, or held by an actor who must be asked.
    pub fn do_get(&mut self, noun: &str) -> (r: String)
        requires
            old(self).playable(),
        ensures
            (final(self).objects@, r@) == get_result(old(self).objects@, noun@),
            final(self).playable(),
    {
        let (output_vis, obj_opt) = self.get_visible("what you want to get", noun);
        let player_to_obj = self.get_distance(Some(LOC_PLAYER), obj_opt);
        match player_to_obj {
            Distance::Me => {
                let mut r = output_vis;
                r.append("You should not be doing that to yourself.\n");
                r
            },
            Distance::Held => {
                let object_idx = obj_opt.unwrap();
                let mut r = output_vis;
                r.append("You already have ");
                r.append(self.objects[object_idx].description.as_str());
                r.append(".\n");
                r
            },
            Distance::OverThere => {
                let mut r = output_vis;
                r.append("Too far away, move closer please.\n");
                r
            },
            Distance::UnknownObject => output_vis,
            _ => {
                let obj_loc = self.location_of(obj_opt);
                match obj_loc {
                    Some(holder) if self.objects[holder].health > 0 => {
                        let mut r = output_vis;
                        r.append("You should ask ");
                        r.append(self.objects[holder].labels[0].as_str());
                        r.append(" nicely.\n");
                        r
                    },
                    _ => self.move_object(obj_opt, Some(LOC_PLAYER)),
                }
            },
        }
    }

    /// Lists what the player carries.
    pub fn do_inventory(&self) -> (r: String)
        requires
            self.wf(),
            self.objects@.len() > 0,
        ensures
            r@ == inventory_text(self.objects@),
    {
        let (list_string, count) = self.list_objects_at_location(LOC_PLAYER);
        if count == 0 {
            String::from_str("You are empty handed.\n")
        } else {
            list_string
        }
    }

    fn look_around(&self) -> (r: String)
        requires
            self.playable(),
        ensures
            r@ == look_around_text(self.objects@),
    {
        let room = self.objects[LOC_PLAYER].location.unwrap();
        let (list_string, _) = self.list_objects_at_location(room);
        let mut r = cat(self.objects[room].labels[0].as_str(), "\nYou are in ");
        r.append(self.objects[room].description.as_str());
        r.append(".\n");
        r.append(list_string.as_str());
        r
    }

    /// Describes the player's room (for `""` or `"around"`), or what `noun`
    /// names together with what it holds.
    pub fn do_look(&self, noun: &str) -> (r: String)
        requires
            self.playable(),
        ensures
            r@ == look_text(self.objects@, noun@),
    {
        if same_text(noun, "around") || same_text(noun, "") {
            proof {
                reveal_strlit("");
            }
            self.look_around()
        } else {
            proof {
                reveal_strlit("");
                if noun@.len() == 0 {
                    assert(noun@ =~= ""@);
                }
            }
            let (output_vis, obj_opt) = self.get_visible("what you want to look at", noun);
            let mut r = output_vis;
            match self.get_distance(Some(LOC_PLAYER), obj_opt) {
                Distance::HereContained => {
                    r.append("Hard to see, you should try to get it first.\n");
                },
                Distance::OverThere => {
                    r.append("Too far away, move closer please.\n");
                },
                Distance::NotHere => {
                    r.append("You don't see any ");
                    r.append(noun);
                    r.append(" here.\n");
                },
                Distance::UnknownObject => {},
                _ => {
                    let obj_idx = obj_opt.unwrap();
                    let (list_string, _) = self.list_objects_at_location(obj_idx);
                    r.append(self.objects[obj_idx].details.as_str());
                    r.append("\n");
                    r.append(list_string.as_str());
                    r.append("\n");
                },
            }
            r
        }
    }

    /// Takes the player through `passage` when it leads somewhere; its
    /// approach text is narrated either way.
    fn move_player(&mut self, passage: usize) -> (r: String)
        requires
            old(self).playable(),
            passage < old(self).objects@.len(),
        ensures
            (final(self).objects@, r@) == traverse(old(self).objects@, passage),
            final(self).playable(),
    {
        let go_string = cat(self.objects[passage].text_go.as_str(), "\n");
        let obj_dst = self.objects[passage].destination;
        match obj_dst {
            Some(_) => {
                self.objects[LOC_PLAYER].location = obj_dst;
                proof {
                    assert(self.objects@ =~= relocated(old(self).objects@, 0, obj_dst));
                    assert forall|i: int| 0 <= i < self.objects@.len() implies {
                        &&& (#[trigger] self.objects@[i]).labels@.len() > 0
                        &&& valid_ref(self.objects@, self.objects@[i].location)
                        &&& valid_ref(self.objects@, self.objects@[i].destination)
                        &&& valid_ref(self.objects@, self.objects@[i].prospect)
                    } by {
                        assert(old(self).objects@[i].labels@.len() > 0);
                    }
                }
                let around = self.look_around();
                let mut r = go_string;
                r.append("\n");
                r.append(around.as_str());
                r
            },
            None => go_string,
        }
    }

    /// Goes through what `noun` names, or through the passage that leads
    /// toward it.
    pub fn do_go(&mut self, noun: &str) -> (r: String)
        requires
            old(self).playable(),
        ensures
            (final(self).objects@, r@) == go_result(old(self).objects@, noun@),
            final(self).playable(),
    {
        let (output_vis, obj_opt) = self.get_visible("where you want to go", noun);
        match self.get_distance(Some(LOC_PLAYER), obj_opt) {
            Distance::OverThere => {
                let player_loc = self.objects[LOC_PLAYER].location;
                let passage = self.get_passage_index(player_loc, obj_opt);
                self.move_player(passage.unwrap())
            },
            Distance::NotHere => cat3("You don't see any ", noun, " here.\n"),
            Distance::UnknownObject => output_vis,
            _ => self.move_player(obj_opt.unwrap()),
        }
    }

    /// Carries out one command and returns its narration.
    pub fn update_state(&mut self, command: &Command) -> (r: String)
        requires
            old(self).playable(),
        ensures
            (final(self).objects@, r@) == step(old(self).objects@, *command),
            final(self).playable(),
    {
        match command {
            Command::Ask(noun) => self.do_ask(noun.as_str()),
            Command::Drop(noun) => self.do_drop(noun.as_str()),
            Command::Get(noun) => self.do_get(noun.as_str()),
            Command::Give(noun) => self.do_give(noun.as_str()),
            Command::Go(noun) => self.do_go(noun.as_str()),
            Command::Inventory => self.do_inventory(),
            Command::Look(noun) => self.do_look(noun.as_str()),
            Command::Quit => String::from_str("Quitting.\nThank you for playing!"),
            Command::Unknown(input_str) => cat3("I don't know how to '", input_str.as_str(), "'."),
        }
    }
}

} // verus!
