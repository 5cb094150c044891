use reentry::codec::{
    default_capacity, default_contents, default_details, default_health, default_prospect,
    default_text_go, default_weight, is_default_capacity, is_default_contents, is_default_details,
    is_default_health, is_default_prospect, is_default_text_go, is_default_weight, ParseError,
    SavedObject, SavedWorld,
};
use reentry::command::{parse, Command};
use reentry::world::{AmbiguousOption, Distance, Object, World};

fn obj(
    labels: &[&str],
    description: &str,
    location: Option<usize>,
    destination: Option<usize>,
    weight: isize,
    capacity: isize,
    health: isize,
) -> Object {
    Object {
        labels: labels.iter().map(|l| l.to_string()).collect(),
        description: description.to_string(),
        location,
        destination,
        prospect: destination,
        details: format!("{} up close.", labels[0]),
        contents: "You see".to_string(),
        text_go: "You can't get much closer than this.".to_string(),
        weight,
        capacity,
        health,
    }
}

// 0 player, 1 Bridge, 2 Galley, 3 Copilot, 4 Pen, 5 Aft, 6 Fwd, 7 Photo, 8 Table
fn ship() -> World {
    let mut aft = obj(&["Aft"], "A passage aft.", Some(1), Some(2), 99, 0, 0);
    aft.text_go = "You walk aft.".to_string();
    let mut fwd = obj(&["Fwd", "Forward"], "A passage forward.", Some(2), Some(1), 99, 0, 0);
    fwd.text_go = "You walk forward.".to_string();
    World {
        objects: vec![
            obj(&["Yourself"], "Yourself.", Some(1), None, 99, 20, 100),
            obj(&["Bridge"], "the bridge", None, None, 99, 1000, 0),
            obj(&["Galley"], "the galley", None, None, 99, 1000, 0),
            obj(&["Copilot"], "Your copilot.", Some(1), None, 99, 20, 5),
            obj(&["Pen"], "A pen.", Some(3), None, 1, 0, 0),
            aft,
            fwd,
            obj(&["Photo"], "A photo.", Some(1), None, 1, 0, 0),
            obj(&["Table"], "A table.", Some(2), None, 99, 5, 0),
        ],
    }
}

#[test]
fn distance_to_self_is_me() {
    let w = ship();
    for e in 0..w.objects.len() {
        assert_eq!(w.get_distance(Some(e), Some(e)), Distance::Me);
    }
}

#[test]
fn held_and_location_are_converse() {
    let w = ship();
    assert_eq!(w.get_distance(Some(3), Some(4)), Distance::Held);
    assert_eq!(w.get_distance(Some(4), Some(3)), Distance::Location);
}

#[test]
fn distance_classes_from_player() {
    let w = ship();
    assert_eq!(w.get_distance(Some(0), Some(1)), Distance::Location);
    assert_eq!(w.get_distance(Some(0), Some(3)), Distance::Here);
    assert_eq!(w.get_distance(Some(0), Some(4)), Distance::HereContained);
    assert_eq!(w.get_distance(Some(0), Some(2)), Distance::OverThere);
    assert_eq!(w.get_distance(Some(0), Some(8)), Distance::NotHere);
    assert_eq!(w.get_distance(Some(0), None), Distance::UnknownObject);
    assert!(w.is_holding(Some(3), Some(4)));
    assert!(!w.is_holding(Some(0), Some(4)));
}

#[test]
fn resolve_is_case_insensitive() {
    let w = ship();
    assert_eq!(w.get_object_index("copilot", Some(0), Distance::OverThere), AmbiguousOption::One(3));
    assert_eq!(w.get_object_index("forward", Some(0), Distance::NotHere), AmbiguousOption::One(6));
    assert_eq!(w.get_object_index("forward", Some(0), Distance::OverThere), AmbiguousOption::Nothing);
}

#[test]
fn two_reachable_matches_are_ambiguous() {
    let mut w = ship();
    w.objects.push(obj(&["Glossy photo", "Photo"], "A glossy photo.", Some(1), None, 1, 0, 0));
    assert_eq!(w.get_object_index("photo", Some(0), Distance::OverThere), AmbiguousOption::Ambiguous);
    assert_eq!(w.do_get("photo"), "Please be more specific about which photo you mean.\n");
    assert_eq!(w.objects[7].location, Some(1));
    assert_eq!(w.objects[9].location, Some(1));
}

#[test]
fn go_aft_moves_player() {
    let mut w = ship();
    let r = w.do_go("aft");
    assert_eq!(w.objects[0].location, Some(2));
    assert!(r.contains("You are in the galley."));
    assert_eq!(r, "You walk aft.\n\nGalley\nYou are in the galley.\nYou see:\nA passage forward.\nA table.\n");
    let again = w.do_go("aft");
    assert_eq!(again, "You don't see any 'aft' here.\n");
    assert_eq!(w.objects[0].location, Some(2));
}

#[test]
fn go_unknown_is_not_understood() {
    let mut w = ship();
    assert_eq!(w.do_go("starboard"), "I don't understand where you want to go.\n");
    assert_eq!(w.objects[0].location, Some(1));
}

#[test]
fn go_toward_room_uses_passage() {
    let mut w = ship();
    let r = w.do_go("galley");
    assert_eq!(w.objects[0].location, Some(2));
    assert!(r.starts_with("You walk aft.\n\nGalley\n"));
}

#[test]
fn go_to_dead_end_shows_blocked_text() {
    let mut w = ship();
    let r = w.do_go("copilot");
    assert_eq!(r, "You can't get much closer than this.\n");
    assert_eq!(w.objects[0].location, Some(1));
}

#[test]
fn get_from_actor_needs_ask() {
    let mut w = ship();
    assert_eq!(w.do_get("pen"), "You should ask Copilot nicely.\n");
    assert_eq!(w.objects[4].location, Some(3));
    assert_eq!(w.do_ask("pen"), "You get Pen from Copilot.\n");
    assert_eq!(w.objects[4].location, Some(0));
}

#[test]
fn get_refusals() {
    let mut w = ship();
    assert_eq!(w.do_get("yourself"), "You should not be doing that to yourself.\n");
    assert_eq!(w.do_get("galley"), "Too far away, move closer please.\n");
    assert_eq!(w.do_get("table"), "You don't see any 'table' here.\n");
    assert_eq!(w.do_get("nothing"), "I don't understand what you want to get.\n");
    assert_eq!(w.do_get("photo"), "You pick up Photo.\n");
    assert_eq!(w.do_get("photo"), "You already have A photo..\n");
}

#[test]
fn drop_and_give() {
    let mut w = ship();
    assert_eq!(w.do_drop("photo"), "You are not holding any photo.\n");
    assert_eq!(w.do_drop("plant"), "I don't understand what you want to drop.\n");
    w.do_get("photo");
    assert_eq!(w.do_drop("photo"), "You drop Photo.\n");
    assert_eq!(w.objects[7].location, Some(1));
    w.do_get("photo");
    assert_eq!(w.do_give("photo"), "You give Photo to Copilot.\n");
    assert_eq!(w.objects[7].location, Some(3));
    assert_eq!(w.do_ask("photo"), "You get Photo from Copilot.\n");
    assert_eq!(w.do_give("yourself"), "You should not be doing that to Yourself.\n");
}

#[test]
fn ask_without_actor() {
    let mut w = ship();
    w.objects[3].location = Some(2);
    assert_eq!(w.actor_here(), None);
    assert_eq!(w.do_ask("pen"), "I don't understand what you want to ask.\n");
}

#[test]
fn ask_for_what_actor_lacks() {
    let mut w = ship();
    assert_eq!(w.actor_here(), Some(3));
    assert_eq!(w.do_ask("photo"), "There appears to be no photo you can get from Copilot.\n");
}

#[test]
fn move_too_heavy_leaves_world() {
    let mut w = ship();
    w.objects[0].location = Some(2);
    let r = w.move_object(Some(8), Some(0));
    assert_eq!(r, "That is way too heavy.\n");
    assert_eq!(w.objects[8].location, Some(2));
}

#[test]
fn move_over_capacity_with_contents() {
    let mut w = ship();
    w.objects.push(obj(&["Crate"], "A crate.", Some(0), None, 15, 0, 0));
    w.objects.push(obj(&["Box"], "A box.", Some(1), None, 10, 0, 0));
    let r = w.move_object(Some(10), Some(0));
    assert_eq!(r, "That would become to heavy.\n");
    assert_eq!(w.objects[10].location, Some(1));
    assert_eq!(w.move_object(Some(10), None), "There is nobody to give that to.\n");
    assert_eq!(w.move_object(None, Some(0)), "");
    assert_eq!(w.move_object(Some(1), Some(0)), "That is way too heavy.\n");
}

#[test]
fn describe_move_wording() {
    let w = ship();
    assert_eq!(w.describe_move(Some(7), Some(1)), "You drop Photo.\n");
    assert_eq!(w.describe_move(Some(7), Some(3)), "You give Photo to Copilot.\n");
    assert_eq!(w.describe_move(Some(7), Some(8)), "You put Photo in Table.\n");
    assert_eq!(w.describe_move(Some(7), Some(0)), "You pick up Photo.\n");
    assert_eq!(w.describe_move(Some(4), Some(0)), "You get Pen from Copilot.\n");
    assert_eq!(w.describe_move(None, Some(0)), "How can you drop nothing?.\n");
}

#[test]
fn look_around_twice_is_identical() {
    let mut w = ship();
    let first = w.update_state(&Command::Look("around".to_string()));
    let second = w.update_state(&Command::Look("around".to_string()));
    assert_eq!(first, second);
    assert_eq!(
        first,
        "Bridge\nYou are in the bridge.\nYou see:\nYour copilot.\nA passage aft.\nA photo.\n"
    );
    assert_eq!(w.do_look(""), first);
}

#[test]
fn look_at_things() {
    let w = ship();
    assert_eq!(w.do_look("copilot"), "Copilot up close.\nYou see:\nA pen.\n\n");
    assert_eq!(w.do_look("pen"), "Hard to see, you should try to get it first.\n");
    assert_eq!(w.do_look("galley"), "Too far away, move closer please.\n");
    assert_eq!(w.do_look("table"), "You don't see any 'table' here.\n");
    assert_eq!(w.do_look("unicorn"), "I don't understand what you want to look at.\n");
    assert_eq!(w.do_look("photo"), "Photo up close.\n\n");
}

#[test]
fn inventory_listing() {
    let mut w = ship();
    assert_eq!(w.do_inventory(), "You are empty handed.\n");
    w.do_get("photo");
    assert_eq!(w.do_inventory(), "You see:\nA photo.\n");
    assert_eq!(w.list_objects_at_location(1), ("You see:\nYour copilot.\nA passage aft.\n".to_string(), 2));
}

#[test]
fn update_state_dispatch() {
    let mut w = ship();
    assert_eq!(w.update_state(&Command::Quit), "Quitting.\nThank you for playing!");
    assert_eq!(w.update_state(&Command::Unknown("Dance now".to_string())), "I don't know how to 'Dance now'.");
    assert_eq!(w.update_state(&Command::Inventory), "You are empty handed.\n");
    assert_eq!(w.update_state(&Command::Get("photo".to_string())), "You pick up Photo.\n");
}

#[test]
fn get_possession_reports() {
    let mut w = ship();
    let (text, idx) = w.get_possession(None, Command::Drop("drop".to_string()), "pen");
    assert_eq!(text, "I don't understand what you want to drop.\n");
    assert_eq!(idx, None);
    let (text, idx) = w.get_possession(Some(3), Command::Ask("ask".to_string()), "pen");
    assert_eq!(text, "");
    assert_eq!(idx, Some(4));
}

#[test]
fn parse_splits_verb_and_noun() {
    assert!(matches!(parse("  Go   North  Deck \n".to_string()), Command::Go(n) if n == "north deck"));
    assert!(matches!(parse("GET Pen".to_string()), Command::Get(n) if n == "pen"));
    assert!(matches!(parse("look".to_string()), Command::Look(n) if n.is_empty()));
    assert!(matches!(parse("inventory".to_string()), Command::Inventory));
    assert!(matches!(parse("quit\n".to_string()), Command::Quit));
    assert!(matches!(parse("ask copilot".to_string()), Command::Ask(n) if n == "copilot"));
    assert!(matches!(parse("drop pen".to_string()), Command::Drop(n) if n == "pen"));
    assert!(matches!(parse("give\tpen".to_string()), Command::Give(n) if n == "pen"));
}

#[test]
fn parse_keeps_unknown_line_trimmed() {
    assert!(matches!(parse("  Dance  Wildly \n".to_string()), Command::Unknown(n) if n == "Dance  Wildly"));
    assert!(matches!(parse("".to_string()), Command::Unknown(n) if n.is_empty()));
    assert!(matches!(parse(" \t ".to_string()), Command::Unknown(n) if n.is_empty()));
}

#[test]
fn command_names() {
    assert_eq!(Command::Ask(String::new()).to_string(), "ask");
    assert_eq!(Command::Inventory.to_string(), "inventory");
    assert_eq!(Command::Unknown("x".to_string()).to_string(), "unknown");
}

fn saved(labels: &[&str], location: &str, destination: &str, prospect: &str) -> SavedObject {
    SavedObject {
        labels: labels.iter().map(|l| l.to_string()).collect(),
        description: format!("{} described.", labels[0]),
        location: location.to_string(),
        destination: destination.to_string(),
        prospect: prospect.to_string(),
        details: default_details(),
        contents: default_contents(),
        text_go: default_text_go(),
        weight: default_weight(),
        capacity: default_capacity(),
        health: default_health(),
    }
}

fn unknown_name(r: Result<World, ParseError>) -> String {
    match r {
        Err(ParseError::UnknownName(m)) => m,
        Ok(_) => panic!("decoding succeeded"),
    }
}

#[test]
fn decode_unknown_location_fails() {
    let s = SavedWorld {
        objects: vec![saved(&["Yourself"], "Bridge", "", ""), saved(&["Bridge"], "", "", ""), saved(&["Pen"], "Nowhere", "", "")],
    };
    assert_eq!(unknown_name(s.to_world()), "Unknown location 'Nowhere'");
}

#[test]
fn decode_unknown_destination_and_prospect_fail() {
    let s = SavedWorld {
        objects: vec![saved(&["Yourself"], "Bridge", "", ""), saved(&["Bridge"], "", "", ""), saved(&["Aft"], "Bridge", "Galley", "")],
    };
    assert_eq!(unknown_name(s.to_world()), "Unknown destination 'Galley'");
    let s = SavedWorld {
        objects: vec![saved(&["Yourself"], "Bridge", "", ""), saved(&["Bridge"], "", "", ""), saved(&["Aft"], "Bridge", "Bridge", "Moon")],
    };
    assert_eq!(unknown_name(s.to_world()), "Unknown prospect 'Moon'");
    let e = ParseError::UnknownName("Unknown prospect 'Moon'".to_string());
    assert_eq!(e.to_string(), "Unknown prospect 'Moon'");
}

#[test]
fn decode_resolves_and_fills_prospect() {
    let s = SavedWorld {
        objects: vec![
            saved(&["Yourself"], "Bridge", "", ""),
            saved(&["Bridge"], "", "", ""),
            saved(&["Galley"], "", "", ""),
            saved(&["Aft"], "Bridge", "Galley", ""),
            saved(&["Window"], "Bridge", "", "Galley"),
        ],
    };
    let w = s.to_world().unwrap();
    assert_eq!(w.objects.len(), 5);
    assert_eq!(w.objects[0].location, Some(1));
    assert_eq!(w.objects[1].location, None);
    assert_eq!(w.objects[3].destination, Some(2));
    assert_eq!(w.objects[3].prospect, Some(2));
    assert_eq!(w.objects[4].destination, None);
    assert_eq!(w.objects[4].prospect, Some(2));
    assert_eq!(w.objects[3].description, "Aft described.");
    assert!(w.is_playable());
}

#[test]
fn encode_then_decode_round_trips() {
    let mut w = ship();
    w.objects[5].prospect = None;
    w.objects[6].prospect = Some(2);
    let s = SavedWorld::from_world(&w);
    assert_eq!(s.objects[0].location, "Bridge");
    assert_eq!(s.objects[1].location, "");
    assert_eq!(s.objects[5].destination, "Galley");
    assert_eq!(s.objects[5].prospect, "");
    let back = s.to_world().unwrap();
    assert_eq!(back.objects.len(), w.objects.len());
    for (a, b) in w.objects.iter().zip(back.objects.iter()) {
        assert_eq!(a.labels, b.labels);
        assert_eq!(a.description, b.description);
        assert_eq!(a.details, b.details);
        assert_eq!(a.weight, b.weight);
        assert_eq!(a.capacity, b.capacity);
        assert_eq!(a.health, b.health);
        assert_eq!(a.location, b.location);
        assert_eq!(a.destination, b.destination);
        assert_eq!(a.prospect.or(a.destination), b.prospect);
    }
}

#[test]
fn defaults_of_the_save_form() {
    assert_eq!(default_prospect(), "");
    assert!(is_default_prospect(""));
    assert_eq!(default_details(), "You see nothing special.");
    assert!(is_default_details("You see nothing special."));
    assert!(!is_default_details("Shiny."));
    assert_eq!(default_contents(), "You see");
    assert!(is_default_contents("You see"));
    assert_eq!(default_text_go(), "You can't get much closer than this.");
    assert!(is_default_text_go("You can't get much closer than this."));
    assert_eq!(default_weight(), 99);
    assert!(is_default_weight(&99));
    assert_eq!(default_capacity(), 0);
    assert!(is_default_capacity(&0));
    assert_eq!(default_health(), 0);
    assert!(is_default_health(&0));
    assert!(!is_default_health(&5));
}

#[test]
fn world_playability() {
    let w = World::new();
    assert!(w.objects.is_empty());
    assert!(!w.is_playable());
    assert!(World::default().objects.is_empty());
    assert!(ship().is_playable());
    let mut bad = ship();
    bad.objects[4].location = Some(40);
    assert!(!bad.is_playable());
}

#[test]
fn upper_case_noun_matches_labels() {
    let mut w = ship();
    assert_eq!(w.get_object_index("COPILOT", Some(0), Distance::OverThere), AmbiguousOption::One(3));
    assert_eq!(w.do_get("PHOTO"), "You pick up Photo.\n");
    assert_eq!(w.objects[7].location, Some(0));
}

#[test]
fn room_without_container_sees_other_rooms_things_as_not_here() {
    let w = ship();
    assert_eq!(w.get_distance(Some(1), Some(8)), Distance::NotHere);
    assert_eq!(w.get_distance(None, Some(1)), Distance::NotHere);
    assert_eq!(w.get_distance(None, Some(8)), Distance::NotHere);
    assert_eq!(w.get_distance(Some(1), Some(3)), Distance::Held);
    assert_eq!(w.get_distance(Some(1), Some(4)), Distance::HeldContained);
}

#[test]
fn thing_without_container_moves_by_weight() {
    let mut w = ship();
    assert_eq!(w.move_object(Some(2), Some(1)), "You drop Galley.\n");
    assert_eq!(w.objects[2].location, Some(1));
}
