//! Player commands and the parsing of a line of input into one.
use vstd::prelude::*;
use vstd::string::{StrSliceExecFns, StringExecFns};

use crate::text::{lower_of, lowercase, same_text};

verus! {

/// A verb with the noun phrase it applies to.
#[derive(Debug)]
pub enum Command {
    Ask(String),
    Drop(String),
    Get(String),
    Give(String),
    Go(String),
    Inventory,
    Look(String),
    Quit,
    Unknown(String),
}

/// The verb that names a command in narration.
pub open spec fn verb_name(c: Command) -> Seq<char> {
    match c {
        Command::Ask(_) => "ask"@,
        Command::Drop(_) => "drop"@,
        Command::Get(_) => "get"@,
        Command::Give(_) => "give"@,
        Command::Go(_) => "go"@,
        Command::Inventory => "inventory"@,
        Command::Look(_) => "look"@,
        Command::Quit => "quit"@,
        Command::Unknown(_) => "unknown"@,
    }
}

impl Command {
    /// The verb that names this command.
    pub fn to_string(&self) -> (r: String)
        ensures
            r@ == verb_name(*self),
    {
        match self {
            Command::Ask(_) => String::from_str("ask"),
            Command::Drop(_) => String::from_str("drop"),
            Command::Get(_) => String::from_str("get"),
            Command::Give(_) => String::from_str("give"),
            Command::Go(_) => String::from_str("go"),
            Command::Inventory => String::from_str("inventory"),
            Command::Look(_) => String::from_str("look"),
            Command::Quit => String::from_str("quit"),
            Command::Unknown(_) => String::from_str("unknown"),
        }
    }
}

/// The characters with the Unicode `White_Space` property.
pub open spec fn white_space(c: char) -> bool {
    let u = c as u32;
    (0x9 <= u <= 0xd) || u == 0x20 || u == 0x85 || u == 0xa0 || u == 0x1680 || (0x2000 <= u
        <= 0x200a) || u == 0x2028 || u == 0x2029 || u == 0x202f || u == 0x205f || u == 0x3000
}

/// Whether `c` is white space, as `char::is_whitespace` decides.
pub fn is_white_space(c: char) -> (r: bool)
    ensures
        r == white_space(c),
{
    let u = c as u32;
    (0x9 <= u && u <= 0xd) || u == 0x20 || u == 0x85 || u == 0xa0 || u == 0x1680 || (0x2000 <= u
        && u <= 0x200a) || u == 0x2028 || u == 0x2029 || u == 0x202f || u == 0x205f || u == 0x3000
}

/// The words of `s` from index `i` on, where a word that began at `cur`
/// (when `cur >= 0`) is still open.
pub open spec fn words_scan(s: Seq<char>, i: int, cur: int) -> Seq<Seq<char>>
    decreases s.len() - i,
{
    if i >= s.len() || i < 0 {
        if cur >= 0 {
            seq![s.subrange(cur, s.len() as int)]
        } else {
            Seq::empty()
        }
    } else if white_space(s[i]) {
        if cur >= 0 {
            seq![s.subrange(cur, i)] + words_scan(s, i + 1, -1)
        } else {
            words_scan(s, i + 1, -1)
        }
    } else if cur >= 0 {
        words_scan(s, i + 1, cur)
    } else {
        words_scan(s, i + 1, i)
    }
}

/// The maximal runs of non white space characters of `s`, in order.
pub open spec fn words(s: Seq<char>) -> Seq<Seq<char>> {
    words_scan(s, 0, -1)
}

/// Words `1` to `k - 1` of `ws`, separated by single spaces.
pub open spec fn join_words(ws: Seq<Seq<char>>, k: int) -> Seq<char>
    decreases k,
{
    if k <= 1 {
        Seq::empty()
    } else {
        let a = join_words(ws, k - 1);
        if a.len() == 0 {
            a + ws[k - 1]
        } else {
            a + " "@ + ws[k - 1]
        }
    }
}

/// Index of the first non white space character of `s` from `i` on.
pub open spec fn lead(s: Seq<char>, i: int) -> int
    decreases s.len() - i,
{
    if i >= s.len() || i < 0 {
        s.len() as int
    } else if white_space(s[i]) {
        lead(s, i + 1)
    } else {
        i
    }
}

/// One past the last non white space character among the first `k`.
pub open spec fn trail(s: Seq<char>, k: int) -> int
    decreases k,
{
    if k <= 0 {
        0
    } else if white_space(s[k - 1]) {
        trail(s, k - 1)
    } else {
        k
    }
}

/// `s` without leading and trailing white space.
pub open spec fn trimmed(s: Seq<char>) -> Seq<char> {
    let a = lead(s, 0);
    let b = trail(s, s.len() as int);
    if a >= b {
        Seq::empty()
    } else {
        s.subrange(a, b)
    }
}

/// `r` is what the line `input` says: its first word, case folded, picks
/// the verb, and the rest, joined by single spaces, is the noun phrase.
/// An unknown verb keeps the whole line, trimmed.
pub open spec fn parses_to(input: Seq<char>, r: Command) -> bool {
    let ws = words(lower_of(input));
    let verb = if ws.len() > 0 {
        ws[0]
    } else {
        Seq::empty()
    };
    let noun = join_words(ws, ws.len() as int);
    if verb == "ask"@ {
        r is Ask && r->Ask_0@ == noun
    } else if verb == "drop"@ {
        r is Drop && r->Drop_0@ == noun
    } else if verb == "get"@ {
        r is Get && r->Get_0@ == noun
    } else if verb == "give"@ {
        r is Give && r->Give_0@ == noun
    } else if verb == "go"@ {
        r is Go && r->Go_0@ == noun
    } else if verb == "inventory"@ {
        r is Inventory
    } else if verb == "look"@ {
        r is Look && r->Look_0@ == noun
    } else if verb == "quit"@ {
        r is Quit
    } else {
        r is Unknown && r->Unknown_0@ == trimmed(input)
    }
}

/// The views of a list of strings.
pub open spec fn views(v: Seq<String>) -> Seq<Seq<char>> {
    v.map_values(|w: String| w@)
}

/// The words of `s`.
fn split_words(s: &str) -> (r: Vec<String>)
    ensures
        views(r@) == words(s@),
{
    let n = s.unicode_len();
    let mut out: Vec<String> = Vec::new();
    let mut cur: Option<usize> = None;
    let mut i: usize = 0;
    while i < n
        invariant
            n == s@.len(),
            i <= n,
            cur matches Some(c) ==> c < i,
            views(out@) + words_scan(s@, i as int, if cur is Some { cur->0 as int } else { -1 }) == words(s@),
        decreases n - i,
    {
        let c = s.get_char(i);
        let ghost before = views(out@);
        if is_white_space(c) {
            if let Some(start) = cur {
                let w = String::from_str(s.substring_char(start, i));
                out.push(w);
                proof {
                    assert(views(out@) =~= before.push(s@.subrange(start as int, i as int)));
                    assert(views(out@) + words_scan(s@, i + 1, -1) =~= before + (seq![s@.subrange(start as int, i as int)] + words_scan(s@, i + 1, -1)));
                }
            }
            cur = None;
        } else if cur.is_none() {
            cur = Some(i);
        }
        i = i + 1;
    }
    if let Some(start) = cur {
        let ghost before = views(out@);
        let w = String::from_str(s.substring_char(start, n));
        out.push(w);
        proof {
            assert(views(out@) =~= before.push(s@.subrange(start as int, n as int)));
            assert(views(out@) =~= before + seq![s@.subrange(start as int, n as int)]);
        }
    } else {
        proof {
            assert(views(out@) + Seq::<Seq<char>>::empty() =~= views(out@));
        }
    }
    out
}

/// `s` without leading and trailing white space.
fn trim_text(s: &str) -> (r: String)
    ensures
        r@ == trimmed(s@),
{
    let n = s.unicode_len();
    let mut a: usize = 0;
    while a < n && is_white_space(s.get_char(a))
        invariant
            n == s@.len(),
            a <= n,
            lead(s@, 0) == lead(s@, a as int),
        decreases n - a,
    {
        a = a + 1;
    }
    let mut b: usize = n;
    while b > 0 && is_white_space(s.get_char(b - 1))
        invariant
            n == s@.len(),
            b <= n,
            trail(s@, n as int) == trail(s@, b as int),
        decreases b,
    {
        b = b - 1;
    }
    if a >= b {
        String::new()
    } else {
        String::from_str(s.substring_char(a, b))
    }
}

/// All words but the first, separated by single spaces.
fn join_rest(ws: &Vec<String>) -> (r: String)
    ensures
        r@ == join_words(views(ws@), ws@.len() as int),
{
    let n = ws.len();
    let mut acc = String::new();
    let mut k: usize = 1;
    if n <= 1 {
        return acc;
    }
    while k < n
        invariant
            n == ws@.len(),
            1 <= k <= n,
            acc@ == join_words(views(ws@), k as int),
        decreases n - k,
    {
        if acc.as_str().is_empty() {
            acc.append(ws[k].as_str());
        } else {
            acc.append(" ");
            acc.append(ws[k].as_str());
        }
        k = k + 1;
    }
    acc
}

/// Splits a line of input into a command.
pub fn parse(input_str: String) -> (r: Command)
    ensures
        parses_to(input_str@, r),
{
    let lc_input_str = lowercase(input_str.as_str());
    let ws = split_words(lc_input_str.as_str());
    let verb = if ws.len() > 0 {
        ws[0].clone()
    } else {
        String::new()
    };
    let noun = join_rest(&ws);
    let v = verb.as_str();
    if same_text(v, "ask") {
        Command::Ask(noun)
    } else if same_text(v, "drop") {
        Command::Drop(noun)
    } else if same_text(v, "get") {
        Command::Get(noun)
    } else if same_text(v, "give") {
        Command::Give(noun)
    } else if same_text(v, "go") {
        Command::Go(noun)
    } else if same_text(v, "inventory") {
        Command::Inventory
    } else if same_text(v, "look") {
        Command::Look(noun)
    } else if same_text(v, "quit") {
        Command::Quit
    } else {
        Command::Unknown(trim_text(input_str.as_str()))
    }
}

} // verus!
