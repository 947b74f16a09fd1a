//! What the library reads from and hands to the session tools: the session
//! and template listings, and the command lines that act on sessions.
use vstd::prelude::*;
use crate::text::{lines, lines_of, push_char, views};

verus! {

/// The template entry that stands for "create a bare session".
pub const NO_TEMPLATE: &'static str = "No Template";

/// Position of the first ':' in `line` at or after `i`, or the length of
/// `line` if there is none.
pub open spec fn colon_from(line: Seq<char>, i: int) -> int
    decreases line.len() - i,
{
    if i >= line.len() {
        line.len() as int
    } else if line[i] == ':' {
        i
    } else {
        colon_from(line, i + 1)
    }
}

/// The session name on a line of the session listing: the text before the
/// first ':' (the whole line if it has none).
pub open spec fn session_name_of(line: Seq<char>) -> Seq<char> {
    line.take(colon_from(line, 0))
}

/// The session names on the lines of a listing, line by line.
pub open spec fn session_names_of(lines: Seq<Seq<char>>) -> Seq<Seq<char>> {
    lines.map_values(|l: Seq<char>| session_name_of(l))
}

/// The template choices offered for a template listing: `NO_TEMPLATE`
/// first, then one per listed line.
pub open spec fn template_choices_of(lines: Seq<Seq<char>>) -> Seq<Seq<char>> {
    seq![NO_TEMPLATE@] + lines
}

/// The session name on one line of the session listing.
pub fn session_name(line: &str) -> (r: String)
    ensures
        r@ == session_name_of(line@),
{
    let n = line.unicode_len();
    let mut r = String::new();
    let mut i: usize = 0;
    while i < n && line.get_char(i) != ':'
        invariant
            i <= n,
            n == line@.len(),
            colon_from(line@, 0) == colon_from(line@, i as int),
            r@ == line@.take(i as int),
        decreases n - i,
    {
        let c = line.get_char(i);
        push_char(&mut r, c);
        assert(line@.take(i as int + 1) == line@.take(i as int).push(c));
        i += 1;
    }
    r
}

/// The session names on already split lines of the session listing.
pub fn session_names(lines: &Vec<String>) -> (r: Vec<String>)
    ensures
        views(r@) == session_names_of(views(lines@)),
{
    let mut out: Vec<String> = Vec::new();
    let mut i: usize = 0;
    while i < lines.len()
        invariant
            i <= lines@.len(),
            views(out@) == session_names_of(views(lines@).take(i as int)),
        decreases lines@.len() - i,
    {
        let ghost before = out@;
        let name = session_name(lines[i].as_str());
        out.push(name);
        assert(views(out@) == views(before).push(name@));
        assert(views(lines@).take(i as int + 1) == views(lines@).take(i as int).push(lines@[i as int]@));
        i += 1;
    }
    assert(views(lines@).take(lines@.len() as int) == views(lines@));
    out
}

/// The session names in the output of the session listing, one per line.
pub fn parse_session_list(output: &str) -> (r: Vec<String>)
    ensures
        views(r@) == session_names_of(lines_of(output@)),
{
    let ls = lines(output);
    session_names(&ls)
}

/// The template choices for already split lines of the template listing.
pub fn template_choices(lines: Vec<String>) -> (r: Vec<String>)
    ensures
        views(r@) == template_choices_of(views(lines@)),
{
    let mut v = lines;
    v.insert(0, String::from_str(NO_TEMPLATE));
    assert(views(v@) == template_choices_of(views(lines@)));
    v
}

/// The template choices for the output of the template listing: the bare
/// session entry first, then one template per line.
pub fn parse_template_list(output: &str) -> (r: Vec<String>)
    ensures
        views(r@) == template_choices_of(lines_of(output@)),
{
    let ls = lines(output);
    template_choices(ls)
}

/// Whether a chosen template names a real template, not the bare entry.
pub open spec fn is_real_template(template: Option<Seq<char>>) -> bool {
    match template {
        Some(t) => t != NO_TEMPLATE@,
        None => false,
    }
}

/// The command line that creates a session: through tmuxifier when a real
/// template was chosen, else a bare detached tmux session.
pub open spec fn create_command_of(name: Seq<char>, template: Option<Seq<char>>) -> Seq<Seq<char>> {
    if is_real_template(template) {
        seq!["tmuxifier"@, "load-session"@, template->Some_0, name]
    } else {
        seq!["tmux"@, "new-session"@, "-d"@, "-s"@, name]
    }
}

fn owned(s: &str) -> (r: String)
    ensures
        r@ == s@,
{
    String::from_str(s)
}

/// The command line that creates session `name` from `template`.
pub fn create_command(name: &str, template: &Option<String>) -> (r: Vec<String>)
    ensures
        views(r@) == create_command_of(
            name@,
            match template {
                Some(t) => Some(t@),
                None => None,
            },
        ),
{
    let bare = owned(NO_TEMPLATE);
    match template {
        Some(t) => {
            if !t.eq(&bare) {
                let r = vec![owned("tmuxifier"), owned("load-session"), t.clone(), owned(name)];
                assert(views(r@) =~= seq!["tmuxifier"@, "load-session"@, t@, name@]);
                return r;
            }
        },
        None => {},
    }
    let r = vec![owned("tmux"), owned("new-session"), owned("-d"), owned("-s"), owned(name)];
    assert(views(r@) =~= seq!["tmux"@, "new-session"@, "-d"@, "-s"@, name@]);
    r
}

/// The command line that kills session `name`.
pub fn delete_command(name: &str) -> (r: Vec<String>)
    ensures
        views(r@) == seq!["tmux"@, "kill-session"@, "-t"@, name@],
{
    let r = vec![owned("tmux"), owned("kill-session"), owned("-t"), owned(name)];
    assert(views(r@) =~= seq!["tmux"@, "kill-session"@, "-t"@, name@]);
    r
}

/// The command line that renames session `old` to `new`.
pub fn rename_command(old: &str, new: &str) -> (r: Vec<String>)
    ensures
        views(r@) == seq!["tmux"@, "rename-session"@, "-t"@, old@, new@],
{
    let r = vec![owned("tmux"), owned("rename-session"), owned("-t"), owned(old), owned(new)];
    assert(views(r@) =~= seq!["tmux"@, "rename-session"@, "-t"@, old@, new@]);
    r
}

/// The command line that attaches the terminal to session `name`.
pub fn attach_command(name: &str) -> (r: Vec<String>)
    ensures
        views(r@) == seq!["tmux"@, "attach-session"@, "-t"@, name@],
{
    let r = vec![owned("tmux"), owned("attach-session"), owned("-t"), owned(name)];
    assert(views(r@) =~= seq!["tmux"@, "attach-session"@, "-t"@, name@]);
    r
}

} // verus!
