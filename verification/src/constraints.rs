//! The per-machine command policy.
//!
//! A machine carries a list of rule texts. Each rule is trimmed; blank rules
//! are ignored, `read_only` forbids commands that invoke a write or admin
//! program or that redirect output, and any other rule refuses every command
//! (fail-close). The first rule that refuses decides the reported violation.

use vstd::prelude::*;
use crate::text::{concat3, concat5, has_char, owned, same_text};

verus! {

// ---------------------------------------------------------------------------
// Tokens of a shell-like command line
// ---------------------------------------------------------------------------

/// Characters that make up a token: ASCII letters and digits, `_`, `-`, `.`, `/`.
pub open spec fn is_token_char(c: char) -> bool {
    ||| ('a' <= c && c <= 'z')
    ||| ('A' <= c && c <= 'Z')
    ||| ('0' <= c && c <= '9')
    ||| c == '_'
    ||| c == '-'
    ||| c == '.'
    ||| c == '/'
}

/// ASCII upper-case letters map to lower case; every other character is kept.
pub open spec fn ascii_lower(c: char) -> char {
    if 'A' <= c && c <= 'Z' {
        ((c as u32) + 32) as char
    } else {
        c
    }
}

/// Reading `s` from the left: the tokens already closed, and the (lower-cased)
/// run of token characters that is still open at the end of `s`.
pub open spec fn scan(s: Seq<char>) -> (Seq<Seq<char>>, Seq<char>)
    decreases s.len(),
{
    if s.len() == 0 {
        (Seq::empty(), Seq::empty())
    } else {
        let prev = scan(s.drop_last());
        let c = s.last();
        if is_token_char(c) {
            (prev.0, prev.1.push(ascii_lower(c)))
        } else if prev.1.len() > 0 {
            (prev.0.push(prev.1), Seq::empty())
        } else {
            (prev.0, Seq::empty())
        }
    }
}

/// The tokens of a command: its maximal runs of token characters, in order,
/// lower-cased.
pub open spec fn tokens(s: Seq<char>) -> Seq<Seq<char>> {
    let r = scan(s);
    if r.1.len() > 0 {
        r.0.push(r.1)
    } else {
        r.0
    }
}

/// The part of a token after its last `/` (the whole token when it has none).
pub open spec fn basename(t: Seq<char>) -> Seq<char>
    decreases t.len(),
{
    if t.len() == 0 {
        t
    } else if t.last() == '/' {
        Seq::empty()
    } else {
        basename(t.drop_last()).push(t.last())
    }
}

/// A command invokes `word` when one of its tokens is `word`, or is a path
/// whose last component is `word`.
pub open spec fn invokes(command: Seq<char>, word: Seq<char>) -> bool {
    exists|i: int|
        0 <= i < tokens(command).len() && (#[trigger] tokens(command)[i] == word || basename(
            tokens(command)[i],
        ) == word)
}

/// The views of a sequence of strings.
pub open spec fn views(v: Seq<String>) -> Seq<Seq<char>> {
    v.map_values(|t: String| t@)
}

fn is_token_char_exec(c: char) -> (r: bool)
    ensures
        r == is_token_char(c),
{
    ('a' <= c && c <= 'z') || ('A' <= c && c <= 'Z') || ('0' <= c && c <= '9') || c == '_' || c
        == '-' || c == '.' || c == '/'
}

fn ascii_lower_exec(c: char) -> (r: char)
    ensures
        r == ascii_lower(c),
{
    if 'A' <= c && c <= 'Z' {
        let b: u8 = c as u8;
        (b + 32) as char
    } else {
        c
    }
}

proof fn lemma_take_step(s: Seq<char>, i: int)
    requires
        0 <= i < s.len(),
    ensures
        s.take(i + 1).drop_last() == s.take(i),
        s.take(i + 1).last() == s[i],
        s.take(i + 1).len() > 0,
{
    assert(s.take(i + 1).drop_last() =~= s.take(i));
}

/// Splits a command line into lower-cased tokens of letters, digits, `_`,
/// `-`, `.` and `/`; every other character separates tokens.
pub fn tokenize_shell_like(command: &str) -> (out: Vec<String>)
    ensures
        views(out@) == tokens(command@),
{
    let mut out: Vec<String> = Vec::new();
    let mut current = String::new();
    for ch in it: command.chars()
        invariant
            it.seq() == command@,
            views(out@) == scan(command@.take(it.index() as int)).0,
            current@ == scan(command@.take(it.index() as int)).1,
    {
        let ghost i = it.index() as int;
        proof {
            lemma_take_step(command@, i);
        }
        if is_token_char_exec(ch) {
            current.push(ascii_lower_exec(ch));
        } else if !current.as_str().is_empty() {
            let ghost before = out@;
            out.push(current);
            current = String::new();
            proof {
                assert(views(out@) =~= views(before).push(scan(command@.take(i)).1));
            }
        }
    }
    proof {
        assert(command@.take(command@.len() as int) =~= command@);
    }
    if !current.as_str().is_empty() {
        let ghost before = out@;
        out.push(current);
        proof {
            assert(views(out@) =~= views(before).push(scan(command@).1));
        }
    }
    out
}

/// The last path component of a token.
fn basename_of(t: &str) -> (r: String)
    ensures
        r@ == basename(t@),
{
    let mut r = String::new();
    for ch in it: t.chars()
        invariant
            it.seq() == t@,
            r@ == basename(t@.take(it.index() as int)),
    {
        proof {
            lemma_take_step(t@, it.index() as int);
        }
        if ch == '/' {
            r = String::new();
        } else {
            r.push(ch);
        }
    }
    proof {
        assert(t@.take(t@.len() as int) =~= t@);
    }
    r
}

/// Whether `command` invokes `needle`: one of its tokens equals `needle`, or
/// ends in `/` followed by `needle`.
pub fn command_invokes_word(command: &str, needle: &str) -> (r: bool)
    ensures
        r == invokes(command@, needle@),
{
    let toks = tokenize_shell_like(command);
    let mut i: usize = 0;
    while i < toks.len()
        invariant
            0 <= i <= toks@.len(),
            views(toks@) == tokens(command@),
            forall|j: int|
                0 <= j < i ==> !(#[trigger] tokens(command@)[j] == needle@ || basename(
                    tokens(command@)[j],
                ) == needle@),
        decreases toks@.len() - i,
    {
        assert(views(toks@)[i as int] == toks@[i as int]@);
        let tok = toks[i].as_str();
        if same_text(tok, needle) || same_text(basename_of(tok).as_str(), needle) {
            assert(tokens(command@)[i as int] == needle@ || basename(tokens(command@)[i as int])
                == needle@);
            return true;
        }
        i = i + 1;
    }
    false
}

// ---------------------------------------------------------------------------
// Whitespace trimming
// ---------------------------------------------------------------------------

/// Unicode `White_Space` characters, as `char::is_whitespace` uses them.
pub open spec fn is_white_space(c: char) -> bool {
    let u = c as u32;
    ||| (0x09 <= u && u <= 0x0D)
    ||| u == 0x20
    ||| u == 0x85
    ||| u == 0xA0
    ||| u == 0x1680
    ||| (0x2000 <= u && u <= 0x200A)
    ||| u == 0x2028
    ||| u == 0x2029
    ||| u == 0x202F
    ||| u == 0x205F
    ||| u == 0x3000
}

/// `s` without its leading white space.
pub open spec fn trim_start(s: Seq<char>) -> Seq<char>
    decreases s.len(),
{
    if s.len() > 0 && is_white_space(s[0]) {
        trim_start(s.drop_first())
    } else {
        s
    }
}

/// `s` without its trailing white space.
pub open spec fn trim_end(s: Seq<char>) -> Seq<char>
    decreases s.len(),
{
    if s.len() > 0 && is_white_space(s.last()) {
        trim_end(s.drop_last())
    } else {
        s
    }
}

/// `s` without leading and trailing white space.
pub open spec fn trim(s: Seq<char>) -> Seq<char> {
    trim_end(trim_start(s))
}

fn is_white_space_exec(c: char) -> (r: bool)
    ensures
        r == is_white_space(c),
{
    let u = c as u32;
    (0x09 <= u && u <= 0x0D) || u == 0x20 || u == 0x85 || u == 0xA0 || u == 0x1680 || (0x2000
        <= u && u <= 0x200A) || u == 0x2028 || u == 0x2029 || u == 0x202F || u == 0x205F || u
        == 0x3000
}

/// A copy of `s` without leading and trailing white space.
pub fn trim_whitespace(s: &str) -> (r: String)
    ensures
        r@ == trim(s@),
{
    let mut chars: Vec<char> = Vec::new();
    for ch in it: s.chars()
        invariant
            it.seq() == s@,
            chars@ == s@.take(it.index() as int),
    {
        proof {
            lemma_take_step(s@, it.index() as int);
        }
        chars.push(ch);
        assert(chars@ =~= s@.take(it.index() + 1));
    }
    assert(chars@ =~= s@);
    let n = chars.len();
    let mut lo: usize = 0;
    while lo < n && is_white_space_exec(chars[lo])
        invariant
            n == chars@.len(),
            chars@ == s@,
            lo <= n,
            trim_start(s@) == trim_start(s@.skip(lo as int)),
        decreases n - lo,
    {
        assert(s@.skip(lo as int).drop_first() =~= s@.skip(lo + 1));
        lo = lo + 1;
    }
    let mut hi: usize = n;
    assert(trim_start(s@) == s@.subrange(lo as int, hi as int)) by {
        assert(s@.skip(lo as int) =~= s@.subrange(lo as int, n as int));
    }
    while hi > lo && is_white_space_exec(chars[hi - 1])
        invariant
            n == chars@.len(),
            chars@ == s@,
            lo <= hi <= n,
            trim(s@) == trim_end(s@.subrange(lo as int, hi as int)),
        decreases hi - lo,
    {
        assert(s@.subrange(lo as int, hi as int).drop_last() =~= s@.subrange(lo as int, hi - 1));
        hi = hi - 1;
    }
    let mut r = String::new();
    let mut k: usize = lo;
    while k < hi
        invariant
            n == chars@.len(),
            chars@ == s@,
            lo <= k <= hi <= n,
            r@ == s@.subrange(lo as int, k as int),
        decreases hi - k,
    {
        r.push(chars[k]);
        assert(r@ =~= s@.subrange(lo as int, k + 1));
        k = k + 1;
    }
    r
}

// ---------------------------------------------------------------------------
// Rules and violations
// ---------------------------------------------------------------------------

/// Why a command was refused (the model of [`ConstraintViolation`]).
pub enum Violation {
    /// Under `read_only`, the command (first field) invokes a blocked program
    /// (second field).
    BlockedKeyword(Seq<char>, Seq<char>),
    /// Under `read_only`, the command redirects output with `>`.
    Redirection(Seq<char>),
    /// The (trimmed) rule is not one this policy knows.
    UnknownRule(Seq<char>),
}

/// A refusal of a command by a machine's rules.
pub enum ConstraintViolation {
    BlockedKeyword { command: String, keyword: String },
    Redirection { command: String },
    UnknownRule { rule: String },
}

impl View for ConstraintViolation {
    type V = Violation;

    open spec fn view(&self) -> Violation {
        match self {
            ConstraintViolation::BlockedKeyword { command, keyword } => Violation::BlockedKeyword(
                command@,
                keyword@,
            ),
            ConstraintViolation::Redirection { command } => Violation::Redirection(command@),
            ConstraintViolation::UnknownRule { rule } => Violation::UnknownRule(rule@),
        }
    }
}

/// The text of the read-only rule.
pub open spec fn read_only_rule() -> Seq<char> {
    "read_only"@
}

/// The programs that the read-only rule forbids, in the order they are checked.
pub open spec fn blocked_keywords() -> Seq<Seq<char>> {
    seq![
        "rm"@,
        "mv"@,
        "cp"@,
        "dd"@,
        "chmod"@,
        "chown"@,
        "sudo"@,
        "nano"@,
        "vi"@,
        "vim"@,
        "tee"@,
        "touch"@,
        "mkdir"@,
        "rmdir"@,
        "truncate"@,
    ]
}

/// The first blocked program, from position `i` of the list on, that `command` invokes.
pub open spec fn first_blocked_from(command: Seq<char>, i: int) -> Option<Seq<char>>
    decreases blocked_keywords().len() - i,
{
    if i < 0 || i >= blocked_keywords().len() {
        None
    } else if invokes(command, blocked_keywords()[i]) {
        Some(blocked_keywords()[i])
    } else {
        first_blocked_from(command, i + 1)
    }
}

/// What the read-only rule says of `command`.
pub open spec fn read_only_verdict(command: Seq<char>) -> Option<Violation> {
    match first_blocked_from(command, 0) {
        Some(k) => Some(Violation::BlockedKeyword(command, k)),
        None => if command.contains('>') {
            Some(Violation::Redirection(command))
        } else {
            None
        },
    }
}

/// What one rule says of `command`: `None` when it lets the command through.
pub open spec fn rule_verdict(rule: Seq<char>, command: Seq<char>) -> Option<Violation> {
    let r = trim(rule);
    if r.len() == 0 {
        None
    } else if r == read_only_rule() {
        read_only_verdict(command)
    } else {
        Some(Violation::UnknownRule(r))
    }
}

/// The verdict of the first rule that refuses `command`, or `None` when all
/// rules let it through.
pub open spec fn first_violation(rules: Seq<Seq<char>>, command: Seq<char>) -> Option<Violation>
    decreases rules.len(),
{
    if rules.len() == 0 {
        None
    } else {
        match rule_verdict(rules[0], command) {
            Some(v) => Some(v),
            None => first_violation(rules.drop_first(), command),
        }
    }
}

/// The message of a violation.
pub open spec fn violation_message(v: Violation) -> Seq<char> {
    match v {
        Violation::BlockedKeyword(command, keyword) => "Constraint Violation: Command '"@ + command
            + "' contains blocked keyword '"@ + keyword + "' (read_only rule active)"@,
        Violation::Redirection(command) => "Constraint Violation: Command '"@ + command
            + "' contains shell redirection while read_only is active"@,
        Violation::UnknownRule(rule) => "Constraint Violation: Unknown constraint rule '"@ + rule
            + "' (blocked by fail-close policy)"@,
    }
}

impl ConstraintViolation {
    /// The text that reports this violation.
    pub fn message(&self) -> (m: String)
        ensures
            m@ == violation_message(self@),
    {
        match self {
            ConstraintViolation::BlockedKeyword { command, keyword } => concat5(
                "Constraint Violation: Command '",
                command.as_str(),
                "' contains blocked keyword '",
                keyword.as_str(),
                "' (read_only rule active)",
            ),
            ConstraintViolation::Redirection { command } => concat3(
                "Constraint Violation: Command '",
                command.as_str(),
                "' contains shell redirection while read_only is active",
            ),
            ConstraintViolation::UnknownRule { rule } => concat3(
                "Constraint Violation: Unknown constraint rule '",
                rule.as_str(),
                "' (blocked by fail-close policy)",
            ),
        }
    }
}

fn blocked_keyword(i: usize) -> (k: &'static str)
    requires
        i < 15,
    ensures
        k@ == blocked_keywords()[i as int],
{
    match i {
        0 => "rm",
        1 => "mv",
        2 => "cp",
        3 => "dd",
        4 => "chmod",
        5 => "chown",
        6 => "sudo",
        7 => "nano",
        8 => "vi",
        9 => "vim",
        10 => "tee",
        11 => "touch",
        12 => "mkdir",
        13 => "rmdir",
        _ => "truncate",
    }
}

fn check_read_only(command: &str) -> (r: Result<(), ConstraintViolation>)
    ensures
        match r {
            Ok(_) => read_only_verdict(command@) is None,
            Err(v) => read_only_verdict(command@) == Some(v@),
        },
{
    let mut i: usize = 0;
    while i < 15
        invariant
            i <= 15,
            first_blocked_from(command@, 0) == first_blocked_from(command@, i as int),
        decreases 15 - i,
    {
        let word = blocked_keyword(i);
        if command_invokes_word(command, word) {
            return Err(ConstraintViolation::BlockedKeyword { command: owned(command), keyword: owned(word) });
        }
        i = i + 1;
    }
    if has_char(command, '>') {
        return Err(ConstraintViolation::Redirection { command: owned(command) });
    }
    Ok(())
}

fn check_rule(rule: &str, command: &str) -> (r: Result<(), ConstraintViolation>)
    ensures
        match r {
            Ok(_) => rule_verdict(rule@, command@) is None,
            Err(v) => rule_verdict(rule@, command@) == Some(v@),
        },
{
    let trimmed = trim_whitespace(rule);
    if trimmed.as_str().is_empty() {
        Ok(())
    } else if same_text(trimmed.as_str(), "read_only") {
        check_read_only(command)
    } else {
        Err(ConstraintViolation::UnknownRule { rule: trimmed })
    }
}

/// Checks `command` against a machine's rules, in order. The first rule that
/// refuses the command decides the error; blank rules are skipped.
pub fn enforce_constraints(constraints: &[String], command: &str) -> (r: Result<(), ConstraintViolation>)
    ensures
        match r {
            Ok(_) => first_violation(views(constraints@), command@) is None,
            Err(v) => first_violation(views(constraints@), command@) == Some(v@),
        },
{
    let ghost rules = views(constraints@);
    let mut i: usize = 0;
    assert(rules.skip(0) =~= rules);
    while i < constraints.len()
        invariant
            0 <= i <= constraints@.len(),
            rules == views(constraints@),
            first_violation(rules, command@) == first_violation(rules.skip(i as int), command@),
        decreases constraints@.len() - i,
    {
        proof {
            assert(rules.skip(i as int).drop_first() =~= rules.skip(i + 1));
            assert(rules.skip(i as int)[0] == constraints@[i as int]@);
        }
        let verdict = check_rule(constraints[i].as_str(), command);
        if verdict.is_err() {
            return verdict;
        }
        i = i + 1;
    }
    proof {
        assert(rules.skip(i as int) =~= Seq::<Seq<char>>::empty());
    }
    Ok(())
}


// ---------------------------------------------------------------------------
// Laws
// ---------------------------------------------------------------------------

proof fn lemma_scan_concat(x: Seq<char>, b: Seq<char>)
    requires
        scan(x).1.len() == 0,
    ensures
        scan(x + b).0 == scan(x).0 + scan(b).0,
        scan(x + b).1 == scan(b).1,
    decreases b.len(),
{
    if b.len() == 0 {
        assert(x + b =~= x);
        assert(scan(x).0 + scan(b).0 =~= scan(x).0);
    } else {
        assert((x + b).drop_last() =~= x + b.drop_last());
        assert((x + b).last() == b.last());
        lemma_scan_concat(x, b.drop_last());
        let prev = scan(b.drop_last());
        if !is_token_char(b.last()) && prev.1.len() > 0 {
            assert((scan(x).0 + prev.0).push(prev.1) =~= scan(x).0 + prev.0.push(prev.1));
        }
    }
}

/// Tokens never span a separator: for any character `sep` that is not a token
/// character, the tokens of `a`, `sep`, `b` are the tokens of `a` followed by
/// the tokens of `b`.
pub proof fn law_tokens_split_at_separator(a: Seq<char>, sep: char, b: Seq<char>)
    requires
        !is_token_char(sep),
    ensures
        tokens(a + seq![sep] + b) == tokens(a) + tokens(b),
{
    let x = a + seq![sep];
    assert(x.drop_last() =~= a);
    assert(scan(x).1.len() == 0);
    assert(scan(x).0 == tokens(a));
    lemma_scan_concat(x, b);
    let sb = scan(b);
    if sb.1.len() > 0 {
        assert((tokens(a) + sb.0).push(sb.1) =~= tokens(a) + sb.0.push(sb.1));
    }
}

/// A well-shaped token: non-empty, made of token characters, none of them an
/// ASCII upper-case letter.
pub open spec fn well_shaped_token(t: Seq<char>) -> bool {
    &&& t.len() > 0
    &&& forall|j: int| 0 <= j < t.len() ==> is_token_char(#[trigger] t[j])
    &&& forall|j: int| 0 <= j < t.len() ==> !('A' <= #[trigger] t[j] && t[j] <= 'Z')
}

proof fn lemma_scan_shape(s: Seq<char>)
    ensures
        forall|i: int| 0 <= i < scan(s).0.len() ==> well_shaped_token(#[trigger] scan(s).0[i]),
        forall|j: int| 0 <= j < scan(s).1.len() ==> is_token_char(#[trigger] scan(s).1[j]),
        forall|j: int| 0 <= j < scan(s).1.len() ==> !('A' <= #[trigger] scan(s).1[j] && scan(s).1[j] <= 'Z'),
    decreases s.len(),
{
    if s.len() > 0 {
        lemma_scan_shape(s.drop_last());
        let prev = scan(s.drop_last());
        let c = s.last();
        if is_token_char(c) {
            let l = ascii_lower(c);
            assert(is_token_char(l) && !('A' <= l && l <= 'Z'));
            assert forall|j: int| 0 <= j < scan(s).1.len() implies is_token_char(#[trigger] scan(s).1[j]) && !('A' <= scan(s).1[j] && scan(s).1[j] <= 'Z') by {
                if j < prev.1.len() {
                    assert(scan(s).1[j] == prev.1[j]);
                }
            }
        } else if prev.1.len() > 0 {
            assert forall|i: int| 0 <= i < scan(s).0.len() implies well_shaped_token(#[trigger] scan(s).0[i]) by {
                if i < prev.0.len() {
                    assert(scan(s).0[i] == prev.0[i]);
                } else {
                    assert(scan(s).0[i] == prev.1);
                }
            }
        }
    }
}

/// Every token of a command is non-empty, consists of ASCII letters, digits,
/// `_`, `-`, `.` and `/`, and holds no upper-case letter.
pub proof fn law_tokens_are_well_shaped(s: Seq<char>)
    ensures
        forall|i: int| 0 <= i < tokens(s).len() ==> well_shaped_token(#[trigger] tokens(s)[i]),
{
    lemma_scan_shape(s);
    let r = scan(s);
    if r.1.len() > 0 {
        assert forall|i: int| 0 <= i < tokens(s).len() implies well_shaped_token(#[trigger] tokens(s)[i]) by {
            if i < r.0.len() {
                assert(tokens(s)[i] == r.0[i]);
            } else {
                assert(tokens(s)[i] == r.1);
            }
        }
    }
}

/// Tokens written one after the other, separated by single spaces.
pub open spec fn join_with_spaces(ts: Seq<Seq<char>>) -> Seq<char>
    decreases ts.len(),
{
    if ts.len() == 0 {
        Seq::empty()
    } else if ts.len() == 1 {
        ts[0]
    } else {
        join_with_spaces(ts.drop_last()) + seq![' '] + ts.last()
    }
}

proof fn lemma_tokens_of_token(t: Seq<char>)
    requires
        well_shaped_token(t),
    ensures
        tokens(t) == seq![t],
{
    lemma_scan_of_token_chars(t);
    assert(Seq::<Seq<char>>::empty().push(t) =~= seq![t]);
}

proof fn lemma_scan_of_token_chars(t: Seq<char>)
    requires
        forall|j: int| 0 <= j < t.len() ==> is_token_char(#[trigger] t[j]),
        forall|j: int| 0 <= j < t.len() ==> !('A' <= #[trigger] t[j] && t[j] <= 'Z'),
    ensures
        scan(t) == (Seq::<Seq<char>>::empty(), t),
    decreases t.len(),
{
    if t.len() > 0 {
        let p = t.drop_last();
        assert forall|j: int| 0 <= j < p.len() implies is_token_char(#[trigger] p[j]) && !('A'
            <= p[j] && p[j] <= 'Z') by {
            assert(p[j] == t[j]);
        }
        lemma_scan_of_token_chars(p);
        assert(is_token_char(t[t.len() - 1]));
        assert(ascii_lower(t.last()) == t.last());
        assert(p.push(t.last()) =~= t);
    }
}

proof fn lemma_tokens_of_joined(ts: Seq<Seq<char>>)
    requires
        forall|i: int| 0 <= i < ts.len() ==> well_shaped_token(#[trigger] ts[i]),
    ensures
        tokens(join_with_spaces(ts)) == ts,
    decreases ts.len(),
{
    if ts.len() == 0 {
        assert(tokens(Seq::<char>::empty()) =~= ts);
    } else if ts.len() == 1 {
        lemma_tokens_of_token(ts[0]);
        assert(seq![ts[0]] =~= ts);
    } else {
        let init = ts.drop_last();
        assert forall|i: int| 0 <= i < init.len() implies well_shaped_token(#[trigger] init[i]) by {
            assert(init[i] == ts[i]);
        }
        lemma_tokens_of_joined(init);
        assert(well_shaped_token(ts[ts.len() - 1]));
        lemma_tokens_of_token(ts.last());
        law_tokens_split_at_separator(join_with_spaces(init), ' ', ts.last());
        assert(init + seq![ts.last()] =~= ts);
    }
}

/// Tokenizing is stable: the tokens of the tokens written out with single
/// spaces between them are the same tokens.
pub proof fn law_tokenize_idempotent(s: Seq<char>)
    ensures
        tokens(join_with_spaces(tokens(s))) == tokens(s),
{
    law_tokens_are_well_shaped(s);
    lemma_tokens_of_joined(tokens(s));
}

proof fn lemma_first_violation_concat(a: Seq<Seq<char>>, b: Seq<Seq<char>>, command: Seq<char>)
    ensures
        first_violation(a + b, command) == match first_violation(a, command) {
            Some(v) => Some(v),
            None => first_violation(b, command),
        },
    decreases a.len(),
{
    if a.len() == 0 {
        assert(a + b =~= b);
    } else {
        assert((a + b)[0] == a[0]);
        assert((a + b).drop_first() =~= a.drop_first() + b);
        lemma_first_violation_concat(a.drop_first(), b, command);
    }
}

/// Rules are checked in order: the verdict on `a` followed by `b` is the
/// verdict on `a` when `a` refuses the command, and the verdict on `b`
/// otherwise. So adding rules, before or after, never lets through a command
/// that the rules refused.
pub proof fn law_rules_compose(a: Seq<Seq<char>>, b: Seq<Seq<char>>, command: Seq<char>)
    ensures
        first_violation(a + b, command) == match first_violation(a, command) {
            Some(v) => Some(v),
            None => first_violation(b, command),
        },
        first_violation(a, command) is Some ==> first_violation(a + b, command) is Some,
        first_violation(a, command) is Some ==> first_violation(b + a, command) is Some,
{
    lemma_first_violation_concat(a, b, command);
    lemma_first_violation_concat(b, a, command);
}

proof fn lemma_violation_at(rules: Seq<Seq<char>>, i: int, command: Seq<char>)
    requires
        0 <= i < rules.len(),
        rule_verdict(rules[i], command) is Some,
    ensures
        first_violation(rules, command) is Some,
{
    let a = rules.take(i);
    let b = rules.skip(i);
    assert(rules =~= a + b);
    assert(b[0] == rules[i]);
    lemma_first_violation_concat(a, b, command);
}

/// Fail-close: a rule that is neither blank nor `read_only` refuses every
/// command, whatever the other rules are.
pub proof fn law_unknown_rule_refuses(rules: Seq<Seq<char>>, i: int, command: Seq<char>)
    requires
        0 <= i < rules.len(),
        trim(rules[i]).len() > 0,
        trim(rules[i]) != read_only_rule(),
    ensures
        first_violation(rules, command) is Some,
{
    lemma_violation_at(rules, i, command);
}

/// Blank rules (empty or white space only) change nothing.
pub proof fn law_blank_rule_ignored(
    a: Seq<Seq<char>>,
    blank: Seq<char>,
    b: Seq<Seq<char>>,
    command: Seq<char>,
)
    requires
        trim(blank).len() == 0,
    ensures
        first_violation(a + seq![blank] + b, command) == first_violation(a + b, command),
{
    lemma_first_violation_concat(a + seq![blank], b, command);
    lemma_first_violation_concat(a, seq![blank], command);
    lemma_first_violation_concat(a, b, command);
    assert(seq![blank].drop_first() =~= Seq::<Seq<char>>::empty());
    assert(seq![blank][0] == blank);
    assert(first_violation(Seq::<Seq<char>>::empty(), command) is None);
    assert(first_violation(seq![blank], command) is None);
}

proof fn lemma_first_blocked_found(command: Seq<char>, i: int, k: int)
    requires
        0 <= i <= k < blocked_keywords().len(),
        invokes(command, blocked_keywords()[k]),
    ensures
        first_blocked_from(command, i) is Some,
    decreases k - i,
{
    if i < k && !invokes(command, blocked_keywords()[i]) {
        lemma_first_blocked_found(command, i + 1, k);
    }
}

/// Under a `read_only` rule, a command that invokes one of the blocked
/// programs, or that holds `>`, is refused.
pub proof fn law_read_only_refuses_writes(rules: Seq<Seq<char>>, i: int, command: Seq<char>)
    requires
        0 <= i < rules.len(),
        trim(rules[i]) == read_only_rule(),
        command.contains('>') || exists|k: int|
            0 <= k < blocked_keywords().len() && invokes(command, #[trigger] blocked_keywords()[k]),
    ensures
        first_violation(rules, command) is Some,
{
    reveal_strlit("read_only");
    if !command.contains('>') {
        let k = choose|k: int|
            0 <= k < blocked_keywords().len() && invokes(command, #[trigger] blocked_keywords()[k]);
        lemma_first_blocked_found(command, 0, k);
    }
    lemma_violation_at(rules, i, command);
}


/// Whether `c` is an ASCII letter or digit, `_`, `-`, `.` or `/`.
pub open spec fn ascii_word_char(c: char) -> bool {
    ('a' <= c && c <= 'z') || ('A' <= c && c <= 'Z') || ('0' <= c && c <= '9') || c == '_' || c
        == '-' || c == '.' || c == '/'
}

/// Every character of every token is an ASCII letter (lower case) or digit,
/// `_`, `-`, `.` or `/`.
pub proof fn law_token_characters(s: Seq<char>)
    ensures
        forall|i: int, j: int|
            0 <= i < tokens(s).len() && 0 <= j < tokens(s)[i].len() ==> {
                let c = #[trigger] tokens(s)[i][j];
                ('a' <= c && c <= 'z') || ('0' <= c && c <= '9') || c == '_' || c == '-' || c
                    == '.' || c == '/'
            },
{
    law_tokens_are_well_shaped(s);
    assert forall|i: int, j: int| 0 <= i < tokens(s).len() && 0 <= j < tokens(s)[i].len() implies {
        let c = #[trigger] tokens(s)[i][j];
        ('a' <= c && c <= 'z') || ('0' <= c && c <= '9') || c == '_' || c == '-' || c == '.' || c
            == '/'
    } by {
        assert(well_shaped_token(tokens(s)[i]));
        assert(is_token_char(tokens(s)[i][j]));
    }
}

/// Any character other than an ASCII letter or digit, `_`, `-`, `.` or `/`
/// (a quote, `$`, `;`, white space, ...) separates tokens: the tokens of `a`,
/// that character, `b` are the tokens of `a` followed by those of `b`.
pub proof fn law_other_characters_separate(a: Seq<char>, sep: char, b: Seq<char>)
    requires
        !(('a' <= sep && sep <= 'z') || ('A' <= sep && sep <= 'Z') || ('0' <= sep && sep <= '9')
            || sep == '_' || sep == '-' || sep == '.' || sep == '/'),
    ensures
        tokens(a + seq![sep] + b) == tokens(a) + tokens(b),
{
    law_tokens_split_at_separator(a, sep, b);
}

/// `s` with its ASCII upper-case letters turned to lower case.
pub open spec fn lowered(s: Seq<char>) -> Seq<char> {
    Seq::new(
        s.len(),
        |j: int|
            if 'A' <= s[j] && s[j] <= 'Z' {
                ((s[j] as u32) + 32) as char
            } else {
                s[j]
            },
    )
}

proof fn lemma_scan_of_run(s: Seq<char>)
    requires
        forall|j: int| 0 <= j < s.len() ==> ascii_word_char(#[trigger] s[j]),
    ensures
        scan(s) == (Seq::<Seq<char>>::empty(), lowered(s)),
    decreases s.len(),
{
    if s.len() > 0 {
        let p = s.drop_last();
        assert forall|j: int| 0 <= j < p.len() implies ascii_word_char(#[trigger] p[j]) by {
            assert(p[j] == s[j]);
        }
        lemma_scan_of_run(p);
        assert(ascii_word_char(s[s.len() - 1]));
        assert(lowered(p).push(ascii_lower(s.last())) =~= lowered(s));
    }
}

/// A non-empty run of ASCII letters, digits, `_`, `-`, `.` and `/` is one
/// token: the run itself, with its upper-case letters lowered.
pub proof fn law_run_is_one_token(s: Seq<char>)
    requires
        s.len() > 0,
        forall|j: int|
            0 <= j < s.len() ==> ('a' <= #[trigger] s[j] && s[j] <= 'z') || ('A' <= s[j] && s[j]
                <= 'Z') || ('0' <= s[j] && s[j] <= '9') || s[j] == '_' || s[j] == '-' || s[j]
                == '.' || s[j] == '/',
    ensures
        tokens(s) == seq![lowered(s)],
        lowered(s).len() == s.len(),
{
    assert forall|j: int| 0 <= j < s.len() implies ascii_word_char(#[trigger] s[j]) by {}
    lemma_scan_of_run(s);
    assert(Seq::<Seq<char>>::empty().push(lowered(s)) =~= seq![lowered(s)]);
}

// Paths and program names.

proof fn lemma_basename_without_slash(y: Seq<char>)
    requires
        !y.contains('/'),
    ensures
        basename(y) == y,
    decreases y.len(),
{
    if y.len() > 0 {
        let p = y.drop_last();
        assert(!p.contains('/')) by {
            if p.contains('/') {
                let k = choose|k: int| 0 <= k < p.len() && p[k] == '/';
                assert(y[k] == '/');
            }
        }
        lemma_basename_without_slash(p);
        assert(y[y.len() - 1] != '/');
        assert(p.push(y.last()) =~= y);
    }
}

proof fn lemma_basename_after_slash(x: Seq<char>, y: Seq<char>)
    requires
        !y.contains('/'),
    ensures
        basename(x + seq!['/'] + y) == y,
    decreases y.len(),
{
    let t = x + seq!['/'] + y;
    if y.len() == 0 {
        assert(t.last() == '/');
    } else {
        let p = y.drop_last();
        assert(!p.contains('/')) by {
            if p.contains('/') {
                let k = choose|k: int| 0 <= k < p.len() && p[k] == '/';
                assert(y[k] == '/');
            }
        }
        lemma_basename_after_slash(x, p);
        assert(t.drop_last() =~= x + seq!['/'] + p);
        assert(t.last() == y[y.len() - 1]);
        assert(y[y.len() - 1] != '/');
        assert(p.push(y.last()) =~= y);
    }
}

proof fn lemma_basename_split(t: Seq<char>)
    ensures
        !basename(t).contains('/'),
        basename(t).len() <= t.len(),
        t.skip(t.len() - basename(t).len()) == basename(t),
        basename(t).len() < t.len() ==> t[t.len() - basename(t).len() - 1] == '/',
    decreases t.len(),
{
    if t.len() == 0 {
        assert(t.skip(0) =~= t);
    } else if t.last() == '/' {
        assert(t.skip(t.len() as int) =~= Seq::<char>::empty());
    } else {
        let p = t.drop_last();
        lemma_basename_split(p);
        let b = basename(p);
        assert(basename(t) == b.push(t.last()));
        assert(!b.push(t.last()).contains('/')) by {
            if b.push(t.last()).contains('/') {
                let k = choose|k: int| 0 <= k < b.len() + 1 && b.push(t.last())[k] == '/';
                if k < b.len() {
                    assert(b[k] == '/');
                }
            }
        }
        assert(t.skip(t.len() - b.len() - 1) =~= p.skip(p.len() - b.len()).push(t.last()));
        if b.len() + 1 < t.len() {
            assert(t[t.len() - b.len() - 2] == p[p.len() - b.len() - 1]);
        }
    }
}

/// A token names `word` as a program: it is `word`, or it ends in `/`
/// followed by `word`, where `word` holds no `/`.
pub open spec fn names_program(t: Seq<char>, word: Seq<char>) -> bool {
    ||| t == word
    ||| (!word.contains('/') && t.len() > word.len() && t[t.len() - word.len() - 1] == '/' && t.skip(
        t.len() - word.len(),
    ) == word)
}

proof fn lemma_basename_names(t: Seq<char>, word: Seq<char>)
    ensures
        (t == word || basename(t) == word) <==> names_program(t, word),
{
    lemma_basename_split(t);
    let b = basename(t);
    if basename(t) == word && t != word {
        assert(t.len() > word.len()) by {
            if b.len() == t.len() {
                assert(t.skip(0) =~= t);
            }
        }
    }
    if !word.contains('/') && t.len() > word.len() && t[t.len() - word.len() - 1] == '/' && t.skip(
        t.len() - word.len(),
    ) == word {
        let x = t.take(t.len() - word.len() - 1);
        assert(x + seq!['/'] + word =~= t);
        lemma_basename_after_slash(x, word);
    }
}

/// A command invokes `word` exactly when one of its tokens is `word`, or is a
/// path whose last component (after its last `/`) is `word`. A token that
/// merely ends in `word` (such as `term` for `rm`) does not count.
pub proof fn law_invokes_means_token_or_path(command: Seq<char>, word: Seq<char>)
    ensures
        invokes(command, word) <==> exists|i: int|
            0 <= i < tokens(command).len() && names_program(#[trigger] tokens(command)[i], word),
{
    if invokes(command, word) {
        let i = choose|i: int|
            0 <= i < tokens(command).len() && (#[trigger] tokens(command)[i] == word || basename(
                tokens(command)[i],
            ) == word);
        lemma_basename_names(tokens(command)[i], word);
    }
    if exists|i: int|
        0 <= i < tokens(command).len() && names_program(#[trigger] tokens(command)[i], word) {
        let i = choose|i: int|
            0 <= i < tokens(command).len() && names_program(#[trigger] tokens(command)[i], word);
        lemma_basename_names(tokens(command)[i], word);
    }
}

// Read-only lets the rest through.

proof fn lemma_no_blocked_from(command: Seq<char>, i: int)
    requires
        0 <= i,
        forall|k: int|
            0 <= k < blocked_keywords().len() ==> !invokes(command, #[trigger] blocked_keywords()[k]),
    ensures
        first_blocked_from(command, i) is None,
    decreases blocked_keywords().len() - i,
{
    if i < blocked_keywords().len() {
        lemma_no_blocked_from(command, i + 1);
    }
}

/// Under rules that are all `read_only` or blank, a command that invokes
/// none of the blocked programs and holds no `>` is let through (input
/// redirection with `<`, pipes and the like are not refused).
pub proof fn law_read_only_permits_the_rest(rules: Seq<Seq<char>>, command: Seq<char>)
    requires
        forall|i: int|
            0 <= i < rules.len() ==> trim(#[trigger] rules[i]).len() == 0 || trim(rules[i])
                == "read_only"@,
        !command.contains('>'),
        forall|k: int|
            0 <= k < blocked_keywords().len() ==> !invokes(command, #[trigger] blocked_keywords()[k]),
    ensures
        first_violation(rules, command) is None,
    decreases rules.len(),
{
    if rules.len() > 0 {
        lemma_no_blocked_from(command, 0);
        assert(trim(rules[0]).len() == 0 || trim(rules[0]) == "read_only"@);
        let rest = rules.drop_first();
        assert forall|i: int| 0 <= i < rest.len() implies trim(#[trigger] rest[i]).len() == 0
            || trim(rest[i]) == "read_only"@ by {
            assert(rest[i] == rules[i + 1]);
        }
        law_read_only_permits_the_rest(rest, command);
    }
}

} // verus!
