//! Agent-friendly messages for command-line parse errors: which command
//! the error is about (from its usage line), what is available there, and
//! a hint and help tip, falling back to the parser's own message.
use vstd::prelude::*;
use crate::text::{
    self, append_joined_strings, owned, split_str, split_whitespace_str, starts_with_str, str_eq,
    trim_start_str,
};
use crate::sort::{self, sort_strings};

verus! {

/// An ASCII letter, which ends a CSI escape sequence.
pub open spec fn is_ascii_alpha(c: char) -> bool {
    ('a' <= c && c <= 'z') || ('A' <= c && c <= 'Z')
}

/// How many characters after `ESC [` a CSI sequence takes: up to and
/// including its first ASCII letter, or all that remain.
pub open spec fn csi_len(t: Seq<char>) -> nat
    decreases t.len(),
{
    if t.len() == 0 {
        0
    } else if is_ascii_alpha(t[0]) {
        1
    } else {
        1 + csi_len(t.drop_first())
    }
}

pub proof fn lemma_csi_len(t: Seq<char>)
    ensures
        csi_len(t) <= t.len(),
    decreases t.len(),
{
    if t.len() > 0 && !is_ascii_alpha(t[0]) {
        lemma_csi_len(t.drop_first());
    }
}

/// `s` without ANSI escape sequences: `ESC [ ... letter` is dropped whole,
/// any other `ESC` with the character after it.
pub open spec fn strip_ansi_of(s: Seq<char>) -> Seq<char>
    decreases s.len(),
{
    if s.len() == 0 {
        Seq::empty()
    } else if s[0] == '\u{1b}' {
        if s.len() >= 2 && s[1] == '[' {
            proof {
                lemma_csi_len(s.skip(2));
            }
            strip_ansi_of(s.skip(2).skip(csi_len(s.skip(2)) as int))
        } else if s.len() >= 2 {
            strip_ansi_of(s.skip(2))
        } else {
            Seq::empty()
        }
    } else {
        seq![s[0]] + strip_ansi_of(s.drop_first())
    }
}

/// Text without an escape character is left as it is.
pub proof fn law_strip_ansi_keeps_plain_text(s: Seq<char>)
    requires
        !s.contains('\u{1b}'),
    ensures
        strip_ansi_of(s) == s,
    decreases s.len(),
{
    if s.len() > 0 {
        assert(s[0] != '\u{1b}');
        assert(!s.drop_first().contains('\u{1b}')) by {
            if s.drop_first().contains('\u{1b}') {
                let i = choose|i: int| 0 <= i < s.drop_first().len() && s.drop_first()[i] == '\u{1b}';
                assert(s[i + 1] == '\u{1b}');
            }
        }
        law_strip_ansi_keeps_plain_text(s.drop_first());
        assert(seq![s[0]] + s.drop_first() =~= s);
    }
}

/// Stripping leaves no escape character.
pub proof fn law_strip_ansi_leaves_no_escape(s: Seq<char>)
    ensures
        !strip_ansi_of(s).contains('\u{1b}'),
    decreases s.len(),
{
    if s.len() > 0 {
        if s[0] == '\u{1b}' {
            if s.len() >= 2 && s[1] == '[' {
                lemma_csi_len(s.skip(2));
                law_strip_ansi_leaves_no_escape(s.skip(2).skip(csi_len(s.skip(2)) as int));
            } else if s.len() >= 2 {
                law_strip_ansi_leaves_no_escape(s.skip(2));
            }
        } else {
            law_strip_ansi_leaves_no_escape(s.drop_first());
            let r = strip_ansi_of(s.drop_first());
            assert(strip_ansi_of(s) == seq![s[0]] + r);
            if (seq![s[0]] + r).contains('\u{1b}') {
                let i = choose|i: int| 0 <= i < (seq![s[0]] + r).len() && (seq![s[0]] + r)[i] == '\u{1b}';
                if i > 0 {
                    assert(r[i - 1] == '\u{1b}');
                }
            }
        }
    }
}

/// Stripping twice is stripping once.
pub proof fn law_strip_ansi_idempotent(s: Seq<char>)
    ensures
        strip_ansi_of(strip_ansi_of(s)) == strip_ansi_of(s),
{
    law_strip_ansi_leaves_no_escape(s);
    law_strip_ansi_keeps_plain_text(strip_ansi_of(s));
}

pub fn is_ascii_alpha_char(c: char) -> (b: bool)
    ensures
        b == is_ascii_alpha(c),
{
    ('a' <= c && c <= 'z') || ('A' <= c && c <= 'Z')
}

/// `s` without ANSI escape sequences.
pub fn strip_ansi(s: &str) -> (r: String)
    ensures
        r@ == strip_ansi_of(s@),
{
    let v = text::chars_of(s);
    let n = v.len();
    let mut out = String::new();
    let mut i: usize = 0;
    assert(s@.skip(0) =~= s@);
    while i < n
        invariant
            n == v@.len(),
            v@ == s@,
            i <= n,
            out@ + strip_ansi_of(s@.skip(i as int)) == strip_ansi_of(s@),
        decreases n - i,
    {
        let ghost rest = s@.skip(i as int);
        assert(rest[0] == v@[i as int]);
        if v[i] == '\u{1b}' {
            if i + 1 < n && v[i + 1] == '[' {
                assert(rest[1] == v@[i + 1]);
                assert(rest.skip(2) =~= s@.skip(i + 2));
                let mut j: usize = i + 2;
                assert(s@.skip(j as int) =~= rest.skip(2));
                while j < n && !is_ascii_alpha_char(v[j])
                    invariant
                        n == v@.len(),
                        v@ == s@,
                        i + 2 <= j <= n,
                        csi_len(s@.skip(i + 2)) == (j - i - 2) + csi_len(s@.skip(j as int)),
                    decreases n - j,
                {
                    assert(s@.skip(j as int)[0] == v@[j as int]);
                    assert(s@.skip(j as int).drop_first() =~= s@.skip(j + 1));
                    j = j + 1;
                }
                if j < n {
                    assert(s@.skip(j as int)[0] == v@[j as int]);
                    j = j + 1;
                } else {
                    assert(s@.skip(j as int) =~= Seq::<char>::empty());
                }
                proof {
                    lemma_csi_len(s@.skip(i + 2));
                    assert(rest.skip(2).skip(csi_len(rest.skip(2)) as int) =~= s@.skip(j as int));
                }
                i = j;
            } else if i + 1 < n {
                assert(rest.skip(2) =~= s@.skip(i + 2));
                i = i + 2;
            } else {
                assert(rest.len() == 1);
                i = n;
                assert(s@.skip(i as int) =~= Seq::<char>::empty());
            }
        } else {
            let ghost before = out@;
            out.append(s.substring_char(i, i + 1));
            assert(s@.subrange(i as int, i + 1) =~= seq![rest[0]]);
            assert(rest.drop_first() =~= s@.skip(i + 1));
            assert(out@ + strip_ansi_of(s@.skip(i + 1)) =~= before + strip_ansi_of(rest));
            i = i + 1;
        }
    }
    assert(s@.skip(n as int) =~= Seq::<char>::empty());
    assert(out@ + strip_ansi_of(Seq::<char>::empty()) =~= out@);
    out
}

/// Whether a line is the usage line: it starts with `Usage:` after leading
/// whitespace.
pub open spec fn is_usage_line(l: Seq<char>) -> bool {
    text::starts_with(text::trim_start(l), "Usage:"@)
}

/// The first usage line among the lines at or after position `i`.
pub open spec fn first_usage_line(ls: Seq<Seq<char>>, i: int) -> Option<Seq<char>>
    decreases ls.len() - i,
{
    if i < 0 || i >= ls.len() {
        None
    } else if is_usage_line(ls[i]) {
        Some(ls[i])
    } else {
        first_usage_line(ls, i + 1)
    }
}

/// The usage line of a text (split at line feeds), if it has one. A
/// carriage return that Rust's `lines` would drop is whitespace, so it
/// changes neither the test nor the words of the line.
pub open spec fn usage_line_in(u: Seq<char>) -> Option<Seq<char>> {
    first_usage_line(text::split_on(u, '\n'), 0)
}

/// A word that ends the command path: a placeholder, an option list or a flag.
pub open spec fn ends_path(w: Seq<char>) -> bool {
    w.len() > 0 && (w[0] == '<' || w[0] == '[' || w[0] == '-')
}

/// The command path among the words at or after position `i`: up to the
/// first word that ends it, without any `Usage:` word.
pub open spec fn path_words(ws: Seq<Seq<char>>, i: int) -> Seq<Seq<char>>
    decreases ws.len() - i,
{
    if i < 0 || i >= ws.len() {
        Seq::empty()
    } else if ends_path(ws[i]) {
        Seq::empty()
    } else if ws[i] == "Usage:"@ {
        path_words(ws, i + 1)
    } else {
        seq![ws[i]] + path_words(ws, i + 1)
    }
}

/// The program name used when no command path can be read.
pub open spec fn program_name() -> Seq<char> {
    "vidu-cli"@
}

/// The command path of a usage text: the words after the first of its
/// usage line (or of the whole text when it has none), up to a placeholder,
/// option list or flag; just the program name when there are none.
pub open spec fn usage_path_of(u: Seq<char>) -> Seq<Seq<char>> {
    let line = match usage_line_in(u) {
        Some(l) => l,
        None => u,
    };
    let t = path_words(text::words(line), 1);
    if t.len() == 0 {
        seq![program_name()]
    } else {
        t
    }
}

fn usage_line_index(ls: &Vec<String>) -> (r: Option<usize>)
    ensures
        match r {
            Some(i) => i < ls@.len() && first_usage_line(text::string_views(ls@), 0) == Some(
                ls@[i as int]@,
            ),
            None => first_usage_line(text::string_views(ls@), 0) is None,
        },
{
    let ghost vs = text::string_views(ls@);
    let mut i: usize = 0;
    while i < ls.len()
        invariant
            i <= ls@.len(),
            vs == text::string_views(ls@),
            first_usage_line(vs, 0) == first_usage_line(vs, i as int),
        decreases ls.len() - i,
    {
        assert(vs[i as int] == ls@[i as int]@);
        if starts_with_str(trim_start_str(ls[i].as_str()), "Usage:") {
            return Some(i);
        }
        i = i + 1;
    }
    None
}

fn path_from_words(ws: &Vec<String>) -> (r: Vec<String>)
    ensures
        text::string_views(r@) == path_words(text::string_views(ws@), 1),
{
    let ghost vs = text::string_views(ws@);
    let mut out: Vec<String> = Vec::new();
    let mut i: usize = 1;
    assert(text::string_views(out@) =~= Seq::<Seq<char>>::empty());
    while i < ws.len()
        invariant
            1 <= i,
            vs == text::string_views(ws@),
            text::string_views(out@) + path_words(vs, i as int) == path_words(vs, 1),
        decreases ws.len() - i,
    {
        let w = ws[i].as_str();
        assert(vs[i as int] == w@);
        let stop = starts_with_str(w, "<") || starts_with_str(w, "[") || starts_with_str(w, "-");
        proof {
            reveal_strlit("<");
            reveal_strlit("[");
            reveal_strlit("-");
            assert("<"@ =~= seq!['<']);
            assert("["@ =~= seq!['[']);
            assert("-"@ =~= seq!['-']);
            if w@.len() > 0 {
                assert(w@.take(1) =~= seq![w@[0]]);
                assert(w@.take(1)[0] == w@[0]);
            }
        }
        assert(stop == ends_path(w@));
        if stop {
            assert(text::string_views(out@) + Seq::<Seq<char>>::empty() =~= text::string_views(out@));
            return out;
        }
        if !str_eq(w, "Usage:") {
            let ghost before = text::string_views(out@);
            out.push(ws[i].clone());
            assert(text::string_views(out@) =~= before.push(w@));
            assert(before + path_words(vs, i as int) =~= text::string_views(out@) + path_words(
                vs,
                i + 1,
            ));
        }
        i = i + 1;
    }
    assert(text::string_views(out@) + Seq::<Seq<char>>::empty() =~= text::string_views(out@));
    out
}

fn program_path() -> (r: Vec<String>)
    ensures
        text::string_views(r@) == seq![program_name()],
        r@.len() == 1,
{
    let mut r: Vec<String> = Vec::new();
    r.push(owned("vidu-cli"));
    assert(text::string_views(r@) =~= seq![program_name()]);
    r
}

/// The command path of a usage text, such as `["vidu-cli", "task", "submit"]`
/// for `Usage: vidu-cli task submit --type <TYPE>`.
pub fn parse_usage_line(usage: &str) -> (r: Vec<String>)
    ensures
        text::string_views(r@) == usage_path_of(usage@),
        r@.len() >= 1,
{
    let lines = split_str(usage, '\n');
    let words = match usage_line_index(&lines) {
        Some(i) => split_whitespace_str(lines[i].as_str()),
        None => split_whitespace_str(usage),
    };
    let p = path_from_words(&words);
    if p.len() == 0 {
        program_path()
    } else {
        p
    }
}

/// The command path that a parse error is about: from its usage context
/// when that names more than the program, else from the usage line of its
/// rendered message, else the program alone.
pub open spec fn error_path_of(usage: Option<Seq<char>>, rendered: Seq<char>) -> Seq<Seq<char>> {
    let r = strip_ansi_of(rendered);
    if usage is Some && usage_path_of(strip_ansi_of(usage->0)).len() > 1 {
        usage_path_of(strip_ansi_of(usage->0))
    } else if usage_line_in(r) is Some && usage_path_of(usage_line_in(r)->0).len() > 1 {
        usage_path_of(usage_line_in(r)->0)
    } else {
        seq![program_name()]
    }
}

/// The command path that a parse error is about; `usage` is its usage
/// context when that is not empty, `rendered` its rendered message.
pub fn extract_usage_path(usage: Option<&str>, rendered: &str) -> (r: Vec<String>)
    ensures
        text::string_views(r@) == error_path_of(
            match usage {
                Some(u) => Some(u@),
                None => None,
            },
            rendered@,
        ),
{
    match usage {
        Some(u) => {
            let p = parse_usage_line(strip_ansi(u).as_str());
            if p.len() > 1 {
                return p;
            }
        },
        None => {},
    }
    let r = strip_ansi(rendered);
    let lines = split_str(r.as_str(), '\n');
    match usage_line_index(&lines) {
        Some(i) => {
            let p = parse_usage_line(lines[i].as_str());
            if p.len() > 1 {
                return p;
            }
        },
        None => {},
    }
    program_path()
}

/// A command of the command-line interface: its name, the names it
/// answers to (its name and aliases), whether it is hidden, and its
/// subcommands (including the `help` one the parser adds).
#[derive(Debug)]
pub struct CommandNode {
    pub name: String,
    pub names: Vec<String>,
    pub hidden: bool,
    pub subcommands: Vec<CommandNode>,
}

/// A command answers to `name` (its name or an alias).
pub open spec fn answers_to(c: CommandNode, name: Seq<char>) -> bool {
    c.name@ == name || text::string_views(c.names@).contains(name)
}

/// The first subcommand at or after position `i` that answers to `name`.
pub open spec fn find_sub(subs: Seq<CommandNode>, name: Seq<char>, i: int) -> Option<int>
    decreases subs.len() - i,
{
    if i < 0 || i >= subs.len() {
        None
    } else if answers_to(subs[i], name) {
        Some(i)
    } else {
        find_sub(subs, name, i + 1)
    }
}

/// The deepest command reached by following the path from position `i`
/// (position 0 is the program itself).
pub open spec fn resolve_from(c: CommandNode, path: Seq<Seq<char>>, i: int) -> CommandNode
    decreases c, path.len() - i,
{
    if i < 0 || i >= path.len() {
        c
    } else {
        match find_sub(c.subcommands@, path[i], 0) {
            Some(j) => if 0 <= j < c.subcommands@.len() {
                resolve_from(c.subcommands@[j], path, i + 1)
            } else {
                c
            },
            None => c,
        }
    }
}

fn answers(c: &CommandNode, name: &str) -> (b: bool)
    ensures
        b == answers_to(*c, name@),
{
    if str_eq(c.name.as_str(), name) {
        return true;
    }
    let mut i: usize = 0;
    while i < c.names.len()
        invariant
            i <= c.names@.len(),
            forall|j: int| 0 <= j < i ==> c.names@[j]@ != name@,
        decreases c.names.len() - i,
    {
        if str_eq(c.names[i].as_str(), name) {
            assert(text::string_views(c.names@)[i as int] == name@);
            return true;
        }
        i = i + 1;
    }
    assert forall|j: int| 0 <= j < text::string_views(c.names@).len() implies text::string_views(
        c.names@,
    )[j] != name@ by {
        assert(text::string_views(c.names@)[j] == c.names@[j]@);
    }
    false
}

fn find_subcommand<'a>(c: &'a CommandNode, name: &str) -> (r: Option<&'a CommandNode>)
    ensures
        match r {
            Some(s) => find_sub(c.subcommands@, name@, 0) matches Some(j) && 0 <= j
                < c.subcommands@.len() && *s == c.subcommands@[j],
            None => find_sub(c.subcommands@, name@, 0) is None,
        },
{
    let mut i: usize = 0;
    while i < c.subcommands.len()
        invariant
            i <= c.subcommands@.len(),
            find_sub(c.subcommands@, name@, 0) == find_sub(c.subcommands@, name@, i as int),
        decreases c.subcommands.len() - i,
    {
        if answers(&c.subcommands[i], name) {
            return Some(&c.subcommands[i]);
        }
        i = i + 1;
    }
    None
}

/// The deepest command reached by following a command path from the root.
pub fn resolve_subcommand<'a>(root: &'a CommandNode, path: &Vec<String>) -> (r: &'a CommandNode)
    ensures
        *r == resolve_from(*root, text::string_views(path@), 1),
{
    let ghost vs = text::string_views(path@);
    let mut cur = root;
    let mut i: usize = 1;
    while i < path.len()
        invariant
            1 <= i,
            vs == text::string_views(path@),
            resolve_from(*root, vs, 1) == resolve_from(*cur, vs, i as int),
        decreases path.len() - i,
    {
        assert(vs[i as int] == path@[i as int]@);
        match find_subcommand(cur, path[i].as_str()) {
            Some(next) => {
                cur = next;
            },
            None => {
                return cur;
            },
        }
        i = i + 1;
    }
    cur
}

/// The names of the visible subcommands of a command other than `help`,
/// at or after position `i`.
pub open spec fn visible_names(subs: Seq<CommandNode>, i: int) -> Seq<Seq<char>>
    decreases subs.len() - i,
{
    if i < 0 || i >= subs.len() {
        Seq::empty()
    } else if !subs[i].hidden && subs[i].name@ != "help"@ {
        seq![subs[i].name@] + visible_names(subs, i + 1)
    } else {
        visible_names(subs, i + 1)
    }
}

/// The subcommands available under a command, sorted.
pub open spec fn available_of(c: CommandNode) -> Seq<Seq<char>> {
    visible_names(c.subcommands@, 0).sort_by(sort::lex_le_fn())
}

/// The subcommands available under a command, sorted.
pub fn available_subcommands(c: &CommandNode) -> (r: Vec<String>)
    ensures
        text::string_views(r@) == available_of(*c),
{
    let mut names: Vec<String> = Vec::new();
    let mut i: usize = 0;
    assert(text::string_views(names@) =~= Seq::<Seq<char>>::empty());
    while i < c.subcommands.len()
        invariant
            i <= c.subcommands@.len(),
            text::string_views(names@) + visible_names(c.subcommands@, i as int) == visible_names(
                c.subcommands@,
                0,
            ),
        decreases c.subcommands.len() - i,
    {
        let s = &c.subcommands[i];
        if !s.hidden && !str_eq(s.name.as_str(), "help") {
            let ghost before = text::string_views(names@);
            names.push(s.name.clone());
            assert(text::string_views(names@) =~= before.push(s.name@));
            assert(before + visible_names(c.subcommands@, i as int) =~= text::string_views(names@)
                + visible_names(c.subcommands@, i + 1));
        }
        i = i + 1;
    }
    assert(text::string_views(names@) + Seq::<Seq<char>>::empty() =~= text::string_views(names@));
    sort_strings(names)
}

/// The kinds of parse error that get a message of their own.
#[derive(Debug, Clone, Copy, PartialEq, Eq, Structural)]
pub enum ParseErrorKind {
    DisplayHelp,
    DisplayVersion,
    DisplayHelpOnMissingArgumentOrSubcommand,
    InvalidSubcommand,
    UnknownArgument,
    InvalidValue,
    MissingRequiredArgument,
    Other,
}

/// Help and version requests are printed as they are and end the program
/// successfully; they are not errors.
pub open spec fn is_display_request_kind(k: ParseErrorKind) -> bool {
    k == ParseErrorKind::DisplayHelp || k == ParseErrorKind::DisplayVersion || k
        == ParseErrorKind::DisplayHelpOnMissingArgumentOrSubcommand
}

/// Whether a parse error is a help or version request.
pub fn is_display_request(k: ParseErrorKind) -> (b: bool)
    ensures
        b == is_display_request_kind(k),
{
    match k {
        ParseErrorKind::DisplayHelp => true,
        ParseErrorKind::DisplayVersion => true,
        ParseErrorKind::DisplayHelpOnMissingArgumentOrSubcommand => true,
        _ => false,
    }
}

/// One context entry of a parse error: absent, a string, a list of
/// strings, or some other value.
#[derive(Debug)]
pub enum ContextEntry {
    Absent,
    Text(String),
    Texts(Vec<String>),
    Other,
}

/// A parse error: its kind, its rendered message, its usage context when
/// that is not empty, and the context entries the messages use.
#[derive(Debug)]
pub struct ParseErrorReport {
    pub kind: ParseErrorKind,
    pub rendered: String,
    pub usage: Option<String>,
    pub invalid_subcommand: ContextEntry,
    pub invalid_arg: ContextEntry,
    pub invalid_value: ContextEntry,
    pub valid_value: ContextEntry,
    pub suggested_subcommand: ContextEntry,
    pub suggested_value: ContextEntry,
}

/// A context entry when it is a single string.
pub open spec fn ctx_text(e: ContextEntry) -> Option<Seq<char>> {
    match e {
        ContextEntry::Text(s) => Some(s@),
        _ => None,
    }
}

/// A context entry when it is a list of strings (else no strings).
pub open spec fn ctx_texts(e: ContextEntry) -> Seq<Seq<char>> {
    match e {
        ContextEntry::Texts(v) => text::string_views(v@),
        _ => Seq::empty(),
    }
}

/// The bad subcommand of an error: its invalid-subcommand entry, else its
/// invalid-argument entry.
pub open spec fn bad_subcommand(e: ParseErrorReport) -> Option<Seq<char>> {
    if ctx_text(e.invalid_subcommand) is Some {
        ctx_text(e.invalid_subcommand)
    } else {
        ctx_text(e.invalid_arg)
    }
}

/// The hint of an entry: its string, else the first of its list.
pub open spec fn entry_hint(e: ContextEntry) -> Option<Seq<char>> {
    if ctx_text(e) is Some {
        ctx_text(e)
    } else if ctx_texts(e).len() > 0 {
        Some(ctx_texts(e)[0])
    } else {
        None
    }
}

/// The parser's "did you mean" hint: from the suggested subcommand, else
/// from the suggested value.
pub open spec fn suggestion_of(e: ParseErrorReport) -> Option<Seq<char>> {
    if entry_hint(e.suggested_subcommand) is Some {
        entry_hint(e.suggested_subcommand)
    } else {
        entry_hint(e.suggested_value)
    }
}

fn ctx_text_of(e: &ContextEntry) -> (r: Option<String>)
    ensures
        match r {
            Some(s) => ctx_text(*e) == Some(s@),
            None => ctx_text(*e) is None,
        },
{
    match e {
        ContextEntry::Text(s) => Some(s.clone()),
        _ => None,
    }
}

fn entry_hint_of(e: &ContextEntry) -> (r: Option<String>)
    ensures
        match r {
            Some(s) => entry_hint(*e) == Some(s@),
            None => entry_hint(*e) is None,
        },
{
    match e {
        ContextEntry::Text(s) => Some(s.clone()),
        ContextEntry::Texts(v) => {
            if v.len() > 0 {
                assert(text::string_views(v@)[0] == v@[0]@);
                Some(v[0].clone())
            } else {
                None
            }
        },
        _ => None,
    }
}

/// The parser's "did you mean" hint, if it gave one.
pub fn suggested_value(e: &ParseErrorReport) -> (r: Option<String>)
    ensures
        match r {
            Some(s) => suggestion_of(*e) == Some(s@),
            None => suggestion_of(*e) is None,
        },
{
    let h = entry_hint_of(&e.suggested_subcommand);
    if h.is_some() {
        return h;
    }
    entry_hint_of(&e.suggested_value)
}

/// The message for a subcommand that does not exist: the bad name and the
/// scope, what is available there, and a hint or a help tip; the parser's
/// own message when nothing is available.
pub open spec fn invalid_subcommand_message(
    e: ParseErrorReport,
    scope: Seq<char>,
    available: Seq<Seq<char>>,
) -> Seq<char> {
    let bad = match bad_subcommand(e) {
        Some(b) => b,
        None => "<unknown>"@,
    };
    if available.len() == 0 {
        e.rendered@
    } else {
        "error: unrecognized subcommand '"@ + bad + "' under '"@ + scope + "'\n"@
            + "  available: "@ + text::join(available, ", "@) + "\n"@ + match suggestion_of(e) {
            Some(h) => "  tip: did you mean '"@ + h + "'?  (run: "@ + scope + " "@ + h
                + " --help)\n"@,
            None => "  tip: run `"@ + scope + " --help` to see usage\n"@,
        }
    }
}

/// Renders the message for a subcommand that does not exist.
pub fn render_invalid_subcommand(e: &ParseErrorReport, scope: &str, available: &Vec<String>) -> (r:
    String)
    ensures
        r@ == invalid_subcommand_message(*e, scope@, text::string_views(available@)),
{
    if available.len() == 0 {
        return e.rendered.clone();
    }
    let bad = match ctx_text_of(&e.invalid_subcommand) {
        Some(b) => b,
        None => match ctx_text_of(&e.invalid_arg) {
            Some(b) => b,
            None => owned("<unknown>"),
        },
    };
    let mut out = String::new();
    out.append("error: unrecognized subcommand '");
    out.append(bad.as_str());
    out.append("' under '");
    out.append(scope);
    out.append("'\n");
    out.append("  available: ");
    append_joined_strings(&mut out, available, ", ");
    out.append("\n");
    match suggested_value(e) {
        Some(h) => {
            out.append("  tip: did you mean '");
            out.append(h.as_str());
            out.append("'?  (run: ");
            out.append(scope);
            out.append(" ");
            out.append(h.as_str());
            out.append(" --help)\n");
        },
        None => {
            out.append("  tip: run `");
            out.append(scope);
            out.append(" --help` to see usage\n");
        },
    }
    out
}

/// The message for a value that is not allowed: the value and the
/// argument, the possible values, a hint, and a help tip when the command
/// is known; the parser's own message when the argument is not known.
pub open spec fn invalid_value_message(e: ParseErrorReport, scope: Seq<char>) -> Seq<char> {
    let arg = match ctx_text(e.invalid_arg) {
        Some(a) => a,
        None => Seq::empty(),
    };
    let bad = match ctx_text(e.invalid_value) {
        Some(b) => b,
        None => Seq::empty(),
    };
    let valid = ctx_texts(e.valid_value);
    if arg.len() == 0 {
        e.rendered@
    } else {
        (if bad.len() == 0 {
            "error: invalid value for '"@ + arg + "'\n"@
        } else {
            "error: invalid value '"@ + bad + "' for '"@ + arg + "'\n"@
        }) + (if valid.len() > 0 {
            "  possible values: "@ + text::join(valid, ", "@) + "\n"@
        } else {
            Seq::empty()
        }) + (match suggestion_of(e) {
            Some(h) => "  tip: did you mean '"@ + h + "'?\n"@,
            None => Seq::empty(),
        }) + (if scope != program_name() {
            "  tip: run `"@ + scope + " --help` for parameter docs\n"@
        } else {
            Seq::empty()
        })
    }
}

/// Renders the message for a value that is not allowed.
pub fn render_invalid_value(e: &ParseErrorReport, scope: &str) -> (r: String)
    ensures
        r@ == invalid_value_message(*e, scope@),
{
    let arg = match ctx_text_of(&e.invalid_arg) {
        Some(a) => a,
        None => String::new(),
    };
    let bad = match ctx_text_of(&e.invalid_value) {
        Some(b) => b,
        None => String::new(),
    };
    if arg.as_str().is_empty() {
        return e.rendered.clone();
    }
    let ghost valid = ctx_texts(e.valid_value);
    let mut out = String::new();
    if bad.as_str().is_empty() {
        out.append("error: invalid value for '");
        out.append(arg.as_str());
        out.append("'\n");
    } else {
        out.append("error: invalid value '");
        out.append(bad.as_str());
        out.append("' for '");
        out.append(arg.as_str());
        out.append("'\n");
    }
    let ghost part1 = out@;
    match &e.valid_value {
        ContextEntry::Texts(v) => {
            if v.len() > 0 {
                out.append("  possible values: ");
                append_joined_strings(&mut out, v, ", ");
                out.append("\n");
            }
        },
        _ => {},
    }
    let ghost part2 = out@;
    match suggested_value(e) {
        Some(h) => {
            out.append("  tip: did you mean '");
            out.append(h.as_str());
            out.append("'?\n");
        },
        None => {},
    }
    let ghost part3 = out@;
    if !str_eq(scope, "vidu-cli") {
        out.append("  tip: run `");
        out.append(scope);
        out.append(" --help` for parameter docs\n");
    }
    assert(out@ =~= invalid_value_message(*e, scope@));
    out
}

/// The lines listing missing arguments, from position `i` on.
pub open spec fn missing_lines(args: Seq<Seq<char>>, i: int) -> Seq<char>
    decreases args.len() - i,
{
    if i < 0 || i >= args.len() {
        Seq::empty()
    } else {
        "  - "@ + strip_ansi_of(args[i]) + "\n"@ + missing_lines(args, i + 1)
    }
}

/// The message for missing required arguments: each of them (without
/// escape sequences) and a help tip; the parser's own message when it
/// names none.
pub open spec fn missing_required_message(e: ParseErrorReport, scope: Seq<char>) -> Seq<char> {
    let args = ctx_texts(e.invalid_arg);
    if args.len() == 0 {
        e.rendered@
    } else {
        "error: missing required arguments:\n"@ + missing_lines(args, 0) + "  tip: run `"@ + scope
            + " --help` for parameter docs\n"@
    }
}

/// Renders the message for missing required arguments.
pub fn render_missing_required(e: &ParseErrorReport, scope: &str) -> (r: String)
    ensures
        r@ == missing_required_message(*e, scope@),
{
    let args = match &e.invalid_arg {
        ContextEntry::Texts(v) => v,
        _ => {
            return e.rendered.clone();
        },
    };
    if args.len() == 0 {
        return e.rendered.clone();
    }
    let ghost vs = text::string_views(args@);
    let mut out = String::new();
    out.append("error: missing required arguments:\n");
    let ghost head = out@;
    let mut i: usize = 0;
    assert(out@ =~= head + missing_lines(vs, 0).take(0));
    while i < args.len()
        invariant
            i <= args@.len(),
            vs == text::string_views(args@),
            out@ + missing_lines(vs, i as int) == head + missing_lines(vs, 0),
        decreases args.len() - i,
    {
        let ghost before = out@;
        out.append("  - ");
        out.append(strip_ansi(args[i].as_str()).as_str());
        out.append("\n");
        assert(vs[i as int] == args@[i as int]@);
        assert(out@ + missing_lines(vs, i + 1) =~= before + missing_lines(vs, i as int));
        i = i + 1;
    }
    out.append("  tip: run `");
    out.append(scope);
    out.append(" --help` for parameter docs\n");
    assert(out@ =~= missing_required_message(*e, scope@));
    out
}

/// Whether an unknown argument is a real flag (or unnamed): those keep the
/// parser's own message, bare words are treated as bad subcommands.
pub open spec fn is_flag_like(bad: Option<Seq<char>>) -> bool {
    match bad {
        Some(b) => text::starts_with(b, "-"@),
        None => true,
    }
}

/// The message for a parse error under the command tree `root`: a tailored
/// message for bad subcommands, bad values and missing arguments, else the
/// parser's own message.
pub open spec fn friendly_message(root: CommandNode, e: ParseErrorReport) -> Seq<char> {
    let path = error_path_of(
        match e.usage {
            Some(u) => Some(u@),
            None => None,
        },
        e.rendered@,
    );
    let scope = text::join(path, " "@);
    let available = available_of(resolve_from(root, path, 1));
    match e.kind {
        ParseErrorKind::InvalidSubcommand => invalid_subcommand_message(e, scope, available),
        ParseErrorKind::UnknownArgument => if is_flag_like(bad_subcommand(e)) {
            e.rendered@
        } else {
            invalid_subcommand_message(e, scope, available)
        },
        ParseErrorKind::InvalidValue => invalid_value_message(e, scope),
        ParseErrorKind::MissingRequiredArgument => missing_required_message(e, scope),
        _ => e.rendered@,
    }
}

/// Renders the message for a parse error under the command tree `root`.
pub fn render_friendly(root: &CommandNode, e: &ParseErrorReport) -> (r: String)
    ensures
        r@ == friendly_message(*root, *e),
{
    let usage = match &e.usage {
        Some(u) => Some(u.as_str()),
        None => None,
    };
    let path = extract_usage_path(usage, e.rendered.as_str());
    let mut scope = String::new();
    append_joined_strings(&mut scope, &path, " ");
    assert(scope@ =~= text::join(text::string_views(path@), " "@));
    let scoped = resolve_subcommand(root, &path);
    match e.kind {
        ParseErrorKind::InvalidSubcommand => {
            let available = available_subcommands(scoped);
            render_invalid_subcommand(e, scope.as_str(), &available)
        },
        ParseErrorKind::UnknownArgument => {
            let bad = match ctx_text_of(&e.invalid_subcommand) {
                Some(b) => Some(b),
                None => ctx_text_of(&e.invalid_arg),
            };
            let flag_like = match &bad {
                Some(b) => starts_with_str(b.as_str(), "-"),
                None => true,
            };
            if flag_like {
                e.rendered.clone()
            } else {
                let available = available_subcommands(scoped);
                render_invalid_subcommand(e, scope.as_str(), &available)
            }
        },
        ParseErrorKind::InvalidValue => render_invalid_value(e, scope.as_str()),
        ParseErrorKind::MissingRequiredArgument => render_missing_required(e, scope.as_str()),
        _ => e.rendered.clone(),
    }
}

} // verus!
