//! Capability-based access control for IPC commands.
//!
//! A capabilities policy is either:
//! - An `allow` list: only commands matching any of the patterns may run.
//! - A `deny` list: every command is allowed except those matching the patterns.
//! - Both: `allow` is applied first, then `deny` strips disallowed items.
//!
//! Patterns are simple glob-like strings in which `*` matches any sequence of
//! characters (no `?`, no `**`, no path semantics).
//! Examples: `"notes:*"`, `"*:read"`, `"dialog:open_file"`.
//!
//! When neither list is configured, all commands are allowed.

use crate::text::{
    chars_of, lemma_split_nonempty, pieces, split, split_chars, texts,
};
use vstd::prelude::*;

verus! {

/// Which commands the frontend may invoke.
#[derive(Debug)]
pub struct CapabilitiesConfig {
    /// When non-empty, only commands matching one of these patterns are permitted.
    pub allow: Vec<String>,
    /// Commands matching one of these patterns are rejected.
    pub deny: Vec<String>,
}

/// A policy as its two lists of patterns.
pub struct Policy {
    pub allow: Seq<Seq<char>>,
    pub deny: Seq<Seq<char>>,
}

impl View for CapabilitiesConfig {
    type V = Policy;

    open spec fn view(&self) -> Policy {
        Policy { allow: texts(self.allow@), deny: texts(self.deny@) }
    }
}

impl Clone for CapabilitiesConfig {
    fn clone(&self) -> (r: Self)
        ensures
            r@ == self@,
    {
        let r: CapabilitiesConfig = CapabilitiesConfig {
            allow: self.allow.clone(),
            deny: self.deny.clone(),
        };
        proof {
            assert(texts(r.allow@) =~= texts(self.allow@));
            assert(texts(r.deny@) =~= texts(self.deny@));
        }
        r
    }
}

/// Whether `text` matches `pattern`: a `*` stands for any sequence of
/// characters, every other character for itself.
pub open spec fn glob_matches(pattern: Seq<char>, text: Seq<char>) -> bool
    decreases pattern.len(),
{
    if pattern.len() == 0 {
        text.len() == 0
    } else if pattern[0] == '*' {
        exists|k: int|
            0 <= k <= text.len() && glob_matches(pattern.drop_first(), #[trigger] text.skip(k))
    } else {
        text.len() > 0 && text[0] == pattern[0] && glob_matches(
            pattern.drop_first(),
            text.drop_first(),
        )
    }
}

/// Whether one of `patterns` matches `cmd`.
pub open spec fn some_match(patterns: Seq<Seq<char>>, cmd: Seq<char>) -> bool {
    exists|i: int| 0 <= i < patterns.len() && glob_matches(#[trigger] patterns[i], cmd)
}

impl Policy {
    /// Whether the policy lets `cmd` run.
    pub open spec fn allows(self, cmd: Seq<char>) -> bool {
        (self.allow.len() == 0 || some_match(self.allow, cmd)) && !some_match(self.deny, cmd)
    }

    /// The policy that is in force when nothing is configured.
    pub open spec fn unrestricted() -> Policy {
        Policy { allow: Seq::empty(), deny: Seq::empty() }
    }
}

// ------------------------------------------------------- piecewise matching

/// Whether `piece` stands in `text` at position `k`.
spec fn occurs_at(piece: Seq<char>, text: Seq<char>, k: int) -> bool {
    0 <= k && k + piece.len() <= text.len() && text.subrange(k, k + piece.len()) == piece
}

/// Whether `text` is made of the pieces in order, each with any text in front
/// of it, the last one at the very end.
spec fn floats(parts: Seq<Seq<char>>, text: Seq<char>) -> bool
    decreases parts.len(),
{
    if parts.len() == 0 {
        false
    } else if parts.len() == 1 {
        occurs_at(parts[0], text, text.len() - parts[0].len())
    } else {
        exists|k: int| #[trigger]
            occurs_at(parts[0], text, k) && floats(
                parts.drop_first(),
                text.skip(k + parts[0].len()),
            )
    }
}

/// Whether `text` is made of the pieces of a pattern, with any text between them.
spec fn anchored(parts: Seq<Seq<char>>, text: Seq<char>) -> bool {
    if parts.len() == 1 {
        text == parts[0]
    } else {
        occurs_at(parts[0], text, 0) && floats(parts.drop_first(), text.skip(parts[0].len() as int))
    }
}

/// Text in front of a match changes nothing.
proof fn lemma_floats_longer(parts: Seq<Seq<char>>, text: Seq<char>, n: int)
    requires
        0 <= n <= text.len(),
        floats(parts, text.skip(n)),
    ensures
        floats(parts, text),
{
    let rest = text.skip(n);
    let p = parts[0];
    if parts.len() == 1 {
        let k = rest.len() - p.len();
        assert(text.subrange(n + k, n + k + p.len()) =~= rest.subrange(k, k + p.len()));
    } else {
        let k = choose|k: int| #[trigger]
            occurs_at(p, rest, k) && floats(parts.drop_first(), rest.skip(k + p.len()));
        assert(text.subrange(n + k, n + k + p.len()) =~= rest.subrange(k, k + p.len()));
        assert(occurs_at(p, text, n + k));
        assert(rest.skip(k + p.len()) =~= text.skip(n + k + p.len()));
    }
}

/// It is enough to look at the first place where the first piece stands.
proof fn lemma_first_place(parts: Seq<Seq<char>>, text: Seq<char>, k: int)
    requires
        parts.len() >= 2,
        occurs_at(parts[0], text, k),
        forall|j: int| 0 <= j < k ==> !occurs_at(parts[0], text, j),
    ensures
        floats(parts, text) == floats(parts.drop_first(), text.skip(k + parts[0].len())),
{
    let p = parts[0];
    if floats(parts, text) {
        let m = choose|m: int| #[trigger]
            occurs_at(p, text, m) && floats(parts.drop_first(), text.skip(m + p.len()));
        assert(m >= k);
        let rest = text.skip(k + p.len());
        assert(rest.skip(m - k) =~= text.skip(m + p.len()));
        lemma_floats_longer(parts.drop_first(), rest, m - k);
    }
}

/// Matching a pattern is matching its pieces.
proof fn lemma_glob_pieces(pattern: Seq<char>, text: Seq<char>)
    ensures
        glob_matches(pattern, text) == anchored(split(pattern, '*'), text),
    decreases pattern.len(),
{
    let parts = split(pattern, '*');
    lemma_split_nonempty(pattern, '*');
    if pattern.len() == 0 {
        assert(glob_matches(pattern, text) == (text =~= Seq::<char>::empty()));
    } else {
        let tail = pattern.drop_first();
        let rest = split(tail, '*');
        lemma_split_nonempty(tail, '*');
        if pattern[0] == '*' {
            assert(parts.drop_first() =~= rest);
            assert(text.skip(0) =~= text);
            assert(occurs_at(parts[0], text, 0)) by {
                assert(text.subrange(0, 0) =~= parts[0]);
            }
            assert forall|k: int| 0 <= k <= text.len() implies glob_matches(
                tail,
                #[trigger] text.skip(k),
            ) == anchored(rest, text.skip(k)) by {
                lemma_glob_pieces(tail, text.skip(k));
            }
            if glob_matches(pattern, text) {
                let k = choose|k: int|
                    0 <= k <= text.len() && glob_matches(tail, #[trigger] text.skip(k));
                assert(anchored(rest, text.skip(k)));
                if rest.len() == 1 {
                    assert(text.subrange(k, text.len() as int) =~= text.skip(k));
                } else {
                    let p = rest[0];
                    assert(text.subrange(k, k + p.len()) =~= text.skip(k).subrange(
                        0,
                        p.len() as int,
                    ));
                    assert(occurs_at(p, text, k));
                    assert(text.skip(k).skip(p.len() as int) =~= text.skip(k + p.len()));
                }
                assert(floats(rest, text));
            }
            if floats(rest, text) {
                let p = rest[0];
                if rest.len() == 1 {
                    let k = text.len() - p.len();
                    assert(text.subrange(k, text.len() as int) =~= text.skip(k));
                    assert(anchored(rest, text.skip(k)));
                } else {
                    let k = choose|k: int| #[trigger]
                        occurs_at(p, text, k) && floats(
                            rest.drop_first(),
                            text.skip(k + p.len()),
                        );
                    assert(text.subrange(k, k + p.len()) =~= text.skip(k).subrange(
                        0,
                        p.len() as int,
                    ));
                    assert(text.skip(k).skip(p.len() as int) =~= text.skip(k + p.len()));
                    assert(anchored(rest, text.skip(k)));
                }
            }
        } else {
            let c = pattern[0];
            let p = rest[0];
            assert(parts[0] == seq![c] + p);
            assert(parts.drop_first() =~= rest.drop_first());
            if text.len() > 0 {
                let shorter = text.drop_first();
                lemma_glob_pieces(tail, shorter);
                assert(text =~= seq![text[0]] + shorter);
                if rest.len() == 1 {
                    if text[0] == c && shorter == p {
                        assert(text =~= parts[0]);
                    }
                    if text == parts[0] {
                        assert(text[0] == c);
                        assert(shorter =~= p);
                    }
                } else {
                    if parts[0].len() <= text.len() {
                        assert(text.skip(parts[0].len() as int) =~= shorter.skip(p.len() as int));
                    }
                    if text[0] == c && occurs_at(p, shorter, 0) {
                        assert(text.subrange(0, parts[0].len() as int) =~= seq![c] + shorter.subrange(
                            0,
                            p.len() as int,
                        ));
                    }
                    if occurs_at(parts[0], text, 0) {
                        let head = text.subrange(0, parts[0].len() as int);
                        assert(head[0] == text[0]);
                        assert(shorter.subrange(0, p.len() as int) =~= head.drop_first());
                        assert(parts[0].drop_first() =~= p);
                    }
                }
            }
        }
    }
}

// ------------------------------------------------------------------- search

/// Whether `piece` stands in `text` at position `at`.
fn stands_at(piece: &Vec<char>, text: &Vec<char>, at: usize) -> (r: bool)
    requires
        at <= text@.len(),
    ensures
        r == occurs_at(piece@, text@, at as int),
{
    let size: usize = text.len();
    if piece.len() > size - at {
        return false;
    }
    let mut i: usize = 0;
    while i < piece.len()
        invariant
            i <= piece@.len(),
            at + piece@.len() <= text@.len() == size,
            forall|j: int| 0 <= j < i ==> piece@[j] == text@[at + j],
        decreases piece@.len() - i,
    {
        if piece[i] != text[at + i] {
            assert(text@.subrange(at as int, at + piece@.len())[i as int] != piece@[i as int]);
            return false;
        }
        i = i + 1;
    }
    assert(text@.subrange(at as int, at + piece@.len()) =~= piece@);
    true
}

/// The first position from `from` on at which `piece` stands in `text`.
fn find_from(piece: &Vec<char>, text: &Vec<char>, from: usize) -> (r: Option<usize>)
    requires
        from <= text@.len(),
    ensures
        match r {
            Some(k) => from <= k && occurs_at(piece@, text@, k as int) && forall|j: int|
                from <= j < k ==> !occurs_at(piece@, text@, j),
            None => forall|j: int| from <= j ==> !occurs_at(piece@, text@, j),
        },
{
    let mut k: usize = from;
    while k <= text.len() && piece.len() <= text.len() - k
        invariant
            from <= k <= text@.len() + 1,
            text@.len() == text.len(),
            forall|j: int| from <= j < k ==> !occurs_at(piece@, text@, j),
        decreases text@.len() + 1 - k,
    {
        if stands_at(piece, text, k) {
            return Some(k);
        }
        if k == text.len() {
            return None;
        }
        k = k + 1;
    }
    None
}

/// Minimal glob matcher: `*` matches any substring, everything else is literal.
pub fn glob_match(pattern: &str, text: &str) -> (r: bool)
    ensures
        r == glob_matches(pattern@, text@),
{
    let pattern_chars: Vec<char> = chars_of(pattern);
    let text_chars: Vec<char> = chars_of(text);
    let parts: Vec<Vec<char>> = split_chars(&pattern_chars, '*');
    let ghost ps = split(pattern@, '*');
    let ghost t = text@;
    proof {
        lemma_split_nonempty(pattern@, '*');
        lemma_glob_pieces(pattern@, text@);
        assert(pieces(parts@).len() == parts@.len());
        assert(forall|i: int| 0 <= i < parts@.len() ==> #[trigger] parts@[i]@ == ps[i]);
    }
    // Anchor the first piece to the start.
    if !stands_at(&parts[0], &text_chars, 0) {
        proof {
            if ps.len() == 1 && t == ps[0] {
                assert(t.subrange(0, t.len() as int) =~= t);
            }
        }
        return false;
    }
    let mut at: usize = parts[0].len();
    if parts.len() == 1 {
        proof {
            if at == t.len() {
                assert(t.subrange(0, t.len() as int) =~= t);
            }
        }
        return at == text_chars.len();
    }
    // Middle pieces can appear anywhere (in order).
    let size: usize = text_chars.len();
    let last: usize = parts.len() - 1;
    let mut i: usize = 1;
    assert(ps.drop_first() =~= ps.skip(1));
    while i < last
        invariant
            1 <= i <= last,
            last == parts@.len() - 1,
            parts@.len() == ps.len(),
            at <= t.len() == size,
            text_chars@ == t,
            t == text@,
            forall|j: int| 0 <= j < parts@.len() ==> #[trigger] parts@[j]@ == ps[j],
            glob_matches(pattern@, t) == floats(ps.skip(i as int), t.skip(at as int)),
        decreases last - i,
    {
        let ghost rest = t.skip(at as int);
        let ghost here = ps.skip(i as int);
        proof {
            assert(here[0] == parts@[i as int]@);
            assert forall|j: int| at <= j implies occurs_at(here[0], t, j) == occurs_at(
                here[0],
                rest,
                j - at,
            ) by {
                if j + here[0].len() <= t.len() {
                    assert(t.subrange(j, j + here[0].len()) =~= rest.subrange(
                        j - at,
                        j - at + here[0].len(),
                    ));
                }
            }
        }
        match find_from(&parts[i], &text_chars, at) {
            Some(k) => {
                proof {
                    assert(occurs_at(here[0], rest, k - at));
                    assert forall|j: int| 0 <= j < k - at implies !occurs_at(here[0], rest, j) by {
                        assert(!occurs_at(here[0], t, j + at));
                    }
                    lemma_first_place(here, rest, k - at);
                    assert(rest.skip(k - at + here[0].len()) =~= t.skip(k + here[0].len()));
                    assert(here.drop_first() =~= ps.skip(i + 1));
                }
                at = k + parts[i].len();
            },
            None => {
                proof {
                    assert forall|j: int| !occurs_at(here[0], rest, j) by {
                        if j >= 0 {
                            assert(!occurs_at(here[0], t, j + at));
                        }
                    }
                }
                return false;
            },
        }
        i = i + 1;
    }
    // Anchor the last piece to the end.
    let ghost rest = t.skip(at as int);
    proof {
        assert(ps.skip(i as int).len() == 1);
        assert(ps.skip(i as int)[0] == parts@[last as int]@);
    }
    if parts[last].len() > text_chars.len() - at {
        return false;
    }
    let from: usize = text_chars.len() - parts[last].len();
    proof {
        let p = ps[last as int];
        assert(t.subrange(from as int, from + p.len()) =~= rest.subrange(
            rest.len() - p.len(),
            rest.len() as int,
        ));
    }
    stands_at(&parts[last], &text_chars, from)
}

/// Whether one of the patterns matches `cmd`.
fn any_match(patterns: &Vec<String>, cmd: &str) -> (r: bool)
    ensures
        r == some_match(texts(patterns@), cmd@),
{
    let mut i: usize = 0;
    while i < patterns.len()
        invariant
            i <= patterns@.len(),
            forall|j: int| 0 <= j < i ==> !glob_matches(#[trigger] texts(patterns@)[j], cmd@),
        decreases patterns@.len() - i,
    {
        if glob_match(patterns[i].as_str(), cmd) {
            assert(glob_matches(texts(patterns@)[i as int], cmd@));
            return true;
        }
        i = i + 1;
    }
    false
}

/// One of some patterns matches as a text when it matches as a string.
proof fn lemma_some_match(patterns: Seq<String>, cmd: Seq<char>)
    ensures
        some_match(texts(patterns), cmd) <==> exists|i: int|
            0 <= i < patterns.len() && glob_matches(#[trigger] patterns[i]@, cmd),
{
    if some_match(texts(patterns), cmd) {
        let i = choose|i: int|
            0 <= i < texts(patterns).len() && glob_matches(#[trigger] texts(patterns)[i], cmd);
        assert(glob_matches(patterns[i]@, cmd));
    }
    if exists|i: int| 0 <= i < patterns.len() && glob_matches(#[trigger] patterns[i]@, cmd) {
        let i = choose|i: int|
            0 <= i < patterns.len() && glob_matches(#[trigger] patterns[i]@, cmd);
        assert(glob_matches(texts(patterns)[i], cmd));
    }
}

impl CapabilitiesConfig {
    /// Whether the policy lets the frontend run `cmd`.
    pub fn is_allowed(&self, cmd: &str) -> (r: bool)
        ensures
            r == self@.allows(cmd@),
            r <==> (self.allow@.len() == 0 || exists|i: int|
                0 <= i < self.allow@.len() && glob_matches(#[trigger] self.allow@[i]@, cmd@))
                && !exists|i: int|
                0 <= i < self.deny@.len() && glob_matches(#[trigger] self.deny@[i]@, cmd@),
    {
        proof {
            lemma_some_match(self.allow@, cmd@);
            lemma_some_match(self.deny@, cmd@);
        }
        let allow_ok: bool = self.allow.len() == 0 || any_match(&self.allow, cmd);
        if !allow_ok {
            return false;
        }
        !any_match(&self.deny, cmd)
    }
}

impl Default for CapabilitiesConfig {
    /// The policy of an app that configures none: everything is allowed.
    fn default() -> (r: Self)
        ensures
            r@ == Policy::unrestricted(),
    {
        let r = CapabilitiesConfig { allow: Vec::new(), deny: Vec::new() };
        assert(r@.allow =~= Seq::empty());
        assert(r@.deny =~= Seq::empty());
        r
    }
}

// --------------------------------------------------------------------- laws

/// Whether `s` holds no `*`.
pub open spec fn literal(s: Seq<char>) -> bool {
    forall|i: int| 0 <= i < s.len() ==> #[trigger] s[i] != '*'
}

/// A pattern without `*` matches itself and nothing else.
pub proof fn law_literal_pattern(pattern: Seq<char>, text: Seq<char>)
    requires
        literal(pattern),
    ensures
        glob_matches(pattern, text) <==> text == pattern,
    decreases pattern.len(),
{
    if pattern.len() == 0 {
        if text.len() == 0 {
            assert(text =~= pattern);
        }
    } else {
        assert(pattern[0] != '*');
        if text.len() > 0 {
            assert forall|i: int| 0 <= i < pattern.drop_first().len() implies #[trigger] pattern.drop_first()[i]
                != '*' by {
                assert(pattern.drop_first()[i] == pattern[i + 1]);
            }
            law_literal_pattern(pattern.drop_first(), text.drop_first());
            assert(text =~= seq![text[0]] + text.drop_first());
            assert(pattern =~= seq![pattern[0]] + pattern.drop_first());
        }
    }
}

/// A pattern with one `*` matches the texts that start with what stands before
/// it and end with what stands after it, the two not overlapping. With nothing
/// before or after the `*` these are the patterns `*suffix`, `prefix*` and `*`.
pub proof fn law_single_wildcard(before: Seq<char>, after: Seq<char>, text: Seq<char>)
    requires
        literal(before),
        literal(after),
    ensures
        glob_matches(before.push('*') + after, text) <==> before.len() + after.len() <= text.len()
            && text.take(before.len() as int) == before && text.skip(text.len() - after.len())
            == after,
    decreases before.len(),
{
    let pattern = before.push('*') + after;
    if before.len() == 0 {
        assert(pattern.drop_first() =~= after);
        assert(before =~= Seq::<char>::empty());
        assert(text.take(0) =~= before);
        if glob_matches(pattern, text) {
            let k = choose|k: int|
                0 <= k <= text.len() && glob_matches(after, #[trigger] text.skip(k));
            law_literal_pattern(after, text.skip(k));
            assert(text.skip(k).len() == text.len() - k);
            assert(k == text.len() - after.len());
        }
        if after.len() <= text.len() && text.skip(text.len() - after.len()) == after {
            law_literal_pattern(after, text.skip(text.len() - after.len()));
        }
    } else {
        let shorter = before.drop_first();
        assert(before[0] != '*');
        assert(pattern[0] == before[0]);
        assert(pattern.drop_first() =~= shorter.push('*') + after);
        assert forall|i: int| 0 <= i < shorter.len() implies #[trigger] shorter[i] != '*' by {
            assert(shorter[i] == before[i + 1]);
        }
        assert(before =~= seq![before[0]] + shorter);
        if text.len() > 0 {
            let rest = text.drop_first();
            law_single_wildcard(shorter, after, rest);
            if before.len() + after.len() <= text.len() {
                assert(rest.skip(rest.len() - after.len()) =~= text.skip(text.len() - after.len()));
                assert(text.take(before.len() as int) =~= seq![text[0]] + rest.take(
                    shorter.len() as int,
                ));
                if text.take(before.len() as int) == before {
                    assert(text.take(before.len() as int)[0] == text[0]);
                    assert(rest.take(shorter.len() as int) =~= text.take(
                        before.len() as int,
                    ).drop_first());
                }
            }
        }
    }
}

/// With no list configured every command is allowed.
pub proof fn law_unrestricted(cmd: Seq<char>)
    ensures
        Policy::unrestricted().allows(cmd),
{
}

/// A denied command is rejected, whatever is allowed.
pub proof fn law_deny_wins(policy: Policy, cmd: Seq<char>)
    requires
        some_match(policy.deny, cmd),
    ensures
        !policy.allows(cmd),
{
}

/// With an allow list configured, a command that matches none of its patterns
/// is rejected.
pub proof fn law_allow_list_is_exclusive(policy: Policy, cmd: Seq<char>)
    requires
        policy.allow.len() > 0,
        !some_match(policy.allow, cmd),
    ensures
        !policy.allows(cmd),
{
}

/// One more denied pattern takes from the allowed commands those that it
/// matches, and no others.
pub proof fn law_deny_strips(policy: Policy, pattern: Seq<char>, cmd: Seq<char>)
    ensures
        (Policy { deny: policy.deny.push(pattern), ..policy }).allows(cmd) <==> policy.allows(cmd)
            && !glob_matches(pattern, cmd),
{
    let more = policy.deny.push(pattern);
    if some_match(policy.deny, cmd) {
        let i = choose|i: int|
            0 <= i < policy.deny.len() && glob_matches(#[trigger] policy.deny[i], cmd);
        assert(glob_matches(more[i], cmd));
    }
    if glob_matches(pattern, cmd) {
        assert(glob_matches(more[policy.deny.len() as int], cmd));
    }
    if some_match(more, cmd) {
        let i = choose|i: int| 0 <= i < more.len() && glob_matches(#[trigger] more[i], cmd);
        if i < policy.deny.len() {
            assert(glob_matches(policy.deny[i], cmd));
        }
    }
}

/// One more allowed pattern on a list that is not empty never takes a command away.
pub proof fn law_allow_grows(policy: Policy, pattern: Seq<char>, cmd: Seq<char>)
    requires
        policy.allow.len() > 0,
        policy.allows(cmd),
    ensures
        (Policy { allow: policy.allow.push(pattern), ..policy }).allows(cmd),
{
    let i = choose|i: int|
        0 <= i < policy.allow.len() && glob_matches(#[trigger] policy.allow[i], cmd);
    assert(glob_matches(policy.allow.push(pattern)[i], cmd));
}

/// With an allow list configured, a command that matches one of its patterns and none
/// of the deny list is allowed.
pub proof fn law_listed_command_is_allowed(policy: Policy, cmd: Seq<char>, i: int)
    requires
        0 <= i < policy.allow.len(),
        glob_matches(policy.allow[i], cmd),
        forall|j: int| 0 <= j < policy.deny.len() ==> !glob_matches(#[trigger] policy.deny[j], cmd),
    ensures
        policy.allows(cmd),
{
}

/// A policy is the configured lists of patterns, in order and letter for letter.
pub proof fn law_policy_is_what_is_configured(cap: CapabilitiesConfig, i: int)
    ensures
        cap@.allow.len() == cap.allow@.len(),
        cap@.deny.len() == cap.deny@.len(),
        0 <= i < cap.allow@.len() ==> cap@.allow[i] == cap.allow@[i]@,
        0 <= i < cap.deny@.len() ==> cap@.deny[i] == cap.deny@[i]@,
{
}

/// A command that matches a configured allow pattern and no configured deny pattern
/// may run.
pub proof fn law_allowed_by_a_pattern(cap: &CapabilitiesConfig, cmd: &str, r: bool, i: int)
    requires
        call_ensures(CapabilitiesConfig::is_allowed, (cap, cmd), r),
        0 <= i < cap.allow@.len(),
        glob_matches(cap.allow@[i]@, cmd@),
        forall|j: int| 0 <= j < cap.deny@.len() ==> !glob_matches(#[trigger] cap.deny@[j]@, cmd@),
    ensures
        r,
{
}

/// A command that the allow list names may run, whatever its name, unless a deny
/// pattern matches it.
pub proof fn law_allowed_by_name(cap: &CapabilitiesConfig, cmd: &str, r: bool, i: int)
    requires
        call_ensures(CapabilitiesConfig::is_allowed, (cap, cmd), r),
        0 <= i < cap.allow@.len(),
        cap.allow@[i]@ == cmd@,
        forall|j: int| 0 <= j < cap.deny@.len() ==> !glob_matches(#[trigger] cap.deny@[j]@, cmd@),
    ensures
        r,
{
    law_pattern_matches_itself(cmd@);
    assert(glob_matches(cap.allow@[i]@, cmd@));
}

/// Without an allow list, a command that no deny pattern matches may run.
pub proof fn law_allowed_unless_denied(cap: &CapabilitiesConfig, cmd: &str, r: bool)
    requires
        call_ensures(CapabilitiesConfig::is_allowed, (cap, cmd), r),
        cap.allow@.len() == 0,
    ensures
        r <==> forall|j: int|
            0 <= j < cap.deny@.len() ==> !glob_matches(#[trigger] cap.deny@[j]@, cmd@),
{
}

/// A command that a deny pattern matches, or that no pattern of an allow list
/// matches, may not run.
pub proof fn law_refused_commands(cap: &CapabilitiesConfig, cmd: &str, r: bool)
    requires
        call_ensures(CapabilitiesConfig::is_allowed, (cap, cmd), r),
    ensures
        (exists|j: int| 0 <= j < cap.deny@.len() && glob_matches(#[trigger] cap.deny@[j]@, cmd@))
            ==> !r,
        cap.allow@.len() > 0 && (forall|i: int|
            0 <= i < cap.allow@.len() ==> !glob_matches(#[trigger] cap.allow@[i]@, cmd@)) ==> !r,
{
}

/// Every text matches itself as a pattern.
pub proof fn law_pattern_matches_itself(text: Seq<char>)
    ensures
        glob_matches(text, text),
    decreases text.len(),
{
    if text.len() > 0 {
        law_pattern_matches_itself(text.drop_first());
        assert(text.skip(1) =~= text.drop_first());
        if text[0] == '*' {
            assert(glob_matches(text.drop_first(), text.skip(1)));
        }
    }
}

/// Two patterns in a row match the texts that can be cut in two so that the first
/// pattern matches the first part and the second the rest.
pub proof fn law_patterns_in_a_row(p: Seq<char>, q: Seq<char>, text: Seq<char>)
    ensures
        glob_matches(p + q, text) <==> exists|k: int|
            #![trigger text.take(k)]
            0 <= k <= text.len() && glob_matches(p, text.take(k)) && glob_matches(q, text.skip(k)),
    decreases p.len(),
{
    if p.len() == 0 {
        assert(p + q =~= q);
        assert(text.skip(0) =~= text);
        if glob_matches(q, text) {
            assert(glob_matches(p, text.take(0)));
        }
    } else {
        let rest = p.drop_first();
        assert((p + q).drop_first() =~= rest + q);
        if p[0] == '*' {
            assert forall|a: int| 0 <= a <= text.len() implies (glob_matches(
                rest + q,
                #[trigger] text.skip(a),
            ) <==> exists|b: int|
                #![trigger text.skip(a).take(b)]
                0 <= b <= text.len() - a && glob_matches(rest, text.skip(a).take(b))
                    && glob_matches(q, text.skip(a).skip(b))) by {
                law_patterns_in_a_row(rest, q, text.skip(a));
            }
            if glob_matches(p + q, text) {
                let a = choose|a: int|
                    0 <= a <= text.len() && glob_matches(rest + q, #[trigger] text.skip(a));
                let b = choose|b: int|
                    #![trigger text.skip(a).take(b)]
                    0 <= b <= text.len() - a && glob_matches(rest, text.skip(a).take(b))
                        && glob_matches(q, text.skip(a).skip(b));
                let k = a + b;
                assert(text.take(k).skip(a) =~= text.skip(a).take(b));
                assert(text.skip(a).skip(b) =~= text.skip(k));
                assert(glob_matches(rest, text.take(k).skip(a)));
                assert(glob_matches(p, text.take(k)));
            }
            if exists|k: int|
                #![trigger text.take(k)]
                0 <= k <= text.len() && glob_matches(p, text.take(k)) && glob_matches(
                    q,
                    text.skip(k),
                ) {
                let k = choose|k: int|
                    #![trigger text.take(k)]
                    0 <= k <= text.len() && glob_matches(p, text.take(k)) && glob_matches(
                        q,
                        text.skip(k),
                    );
                let a = choose|a: int|
                    0 <= a <= text.take(k).len() && glob_matches(
                        rest,
                        #[trigger] text.take(k).skip(a),
                    );
                let b = k - a;
                assert(text.take(k).skip(a) =~= text.skip(a).take(b));
                assert(text.skip(a).skip(b) =~= text.skip(k));
                assert(glob_matches(rest + q, text.skip(a)));
            }
        } else if text.len() > 0 {
            let tail = text.drop_first();
            law_patterns_in_a_row(rest, q, tail);
            if glob_matches(p + q, text) {
                let k = choose|k: int|
                    #![trigger tail.take(k)]
                    0 <= k <= tail.len() && glob_matches(rest, tail.take(k)) && glob_matches(
                        q,
                        tail.skip(k),
                    );
                assert(text.take(k + 1).drop_first() =~= tail.take(k));
                assert(text.skip(k + 1) =~= tail.skip(k));
                assert(glob_matches(p, text.take(k + 1)));
            }
            if exists|k: int|
                #![trigger text.take(k)]
                0 <= k <= text.len() && glob_matches(p, text.take(k)) && glob_matches(
                    q,
                    text.skip(k),
                ) {
                let k = choose|k: int|
                    #![trigger text.take(k)]
                    0 <= k <= text.len() && glob_matches(p, text.take(k)) && glob_matches(
                        q,
                        text.skip(k),
                    );
                assert(text.take(k).len() == k);
                assert(k > 0);
                assert(text.take(k).drop_first() =~= tail.take(k - 1));
                assert(text.skip(k) =~= tail.skip(k - 1));
                assert(glob_matches(rest, tail.take(k - 1)));
            }
        } else {
            assert forall|k: int|
                #![trigger text.take(k)]
                0 <= k <= text.len() implies !glob_matches(p, text.take(k)) by {
                assert(text.take(k).len() == 0);
            }
        }
    }
}

/// What the matcher says: yes to a text that equals a pattern without `*`, and yes to
/// everything for the pattern `*`. With patterns in a row, this decides every match.
pub proof fn law_matcher_knows_one_wildcard(pattern: &str, text: &str, r: bool)
    requires
        call_ensures(glob_match, (pattern, text), r),
    ensures
        literal(pattern@) ==> (r <==> text@ == pattern@),
        pattern@ == seq!['*'] ==> r,
        r == glob_matches(pattern@, text@),
{
    if literal(pattern@) {
        law_literal_pattern(pattern@, text@);
    }
    if pattern@ == seq!['*'] {
        let none = Seq::<char>::empty();
        law_single_wildcard(none, none, text@);
        assert(none.push('*') + none =~= seq!['*']);
        assert(text@.take(0) =~= none);
        assert(text@.skip(text@.len() as int) =~= none);
    }
}

} // verus!
