//! The text transformation pipeline: mention sanitizing, capture-group
//! extraction with template substitution, and the literal and regex rule
//! passes applied to nicknames and chat text.

use vstd::prelude::*;
use vstd::string::*;
use crate::pattern::{Pattern, regex_is_match, regex_group1};
use crate::strings::{
    spec_replace_first, replace_first, push_char, escape_mentions, spec_format_mention,
    lemma_escape_mentions_push, lemma_skip_step, lemma_utf8_longer_than_two_bytes,
    seq_contains_seq,
};
use crate::model::{HandlerPaths, EnvHandler, pairs_view, rules_view};

verus! {

/// An error raised while one console line is being transformed.
#[derive(Clone, Copy, Debug, PartialEq, Eq, Structural)]
pub enum PipelineError {
    /// A regex rule matched the text but has no participating capture
    /// group 1 to substitute, so the rule is corrupt.
    MissingCaptureGroup,
}

/// Neutralizes bus mention syntax in a nickname: when the name contains
/// `@` and its encoding is longer than two bytes, every `@` becomes `@-`;
/// otherwise the name is returned unchanged.
pub fn format_mention(nickname: String) -> (r: String)
    ensures
        r@ == spec_format_mention(nickname@),
{
    if nickname.as_str().is_empty() {
        return nickname;
    }
    let n = nickname.as_str().unicode_len();
    let mut has_at = false;
    let mut i: usize = 0;
    while i < n
        invariant
            n == nickname@.len(),
            0 <= i <= n,
            has_at <==> (exists|j: int| 0 <= j < i && nickname@[j] == '@'),
        decreases n - i,
    {
        if nickname.as_str().get_char(i) == '@' {
            has_at = true;
        }
        i += 1;
    }
    proof {
        if has_at {
            let j = choose|j: int| 0 <= j < n && nickname@[j] == '@';
            assert(nickname@.contains('@'));
        }
        if nickname@.contains('@') {
            let j = choose|j: int| 0 <= j < nickname@.len() && nickname@[j] == '@';
            assert(0 <= j < n && nickname@[j] == '@');
        }
    }
    let long_enough = if n >= 3 {
        true
    } else if n == 2 {
        nickname.as_str().get_char(0) as u32 > 0x7F || nickname.as_str().get_char(1) as u32
            > 0x7F
    } else {
        nickname.as_str().get_char(0) as u32 > 0x7FF
    };
    proof {
        lemma_utf8_longer_than_two_bytes(nickname@);
    }
    if !has_at || !long_enough {
        return nickname;
    }
    let mut out = String::new();
    let mut i: usize = 0;
    while i < n
        invariant
            n == nickname@.len(),
            0 <= i <= n,
            out@ == escape_mentions(nickname@.take(i as int)),
        decreases n - i,
    {
        let c = nickname.as_str().get_char(i);
        proof {
            lemma_escape_mentions_push(nickname@.take(i as int), nickname@[i as int]);
            assert(nickname@.take(i as int).push(nickname@[i as int]) =~= nickname@.take(
                i + 1,
            ));
        }
        if c == '@' {
            out.append("@-");
            proof {
                reveal_strlit("@-");
                assert("@-"@ =~= seq!['@', '-']);
            }
        } else {
            push_char(&mut out, c);
            proof {
                assert(escape_mentions(nickname@.take(i as int)).push(c) =~= escape_mentions(
                    nickname@.take(i as int),
                ) + seq![c]);
            }
        }
        i += 1;
    }
    proof {
        assert(nickname@.take(n as int) =~= nickname@);
    }
    out
}

/// The view of a capture result: each group's matched substring, `None`
/// for a group that did not participate.
pub open spec fn groups_view(groups: Seq<Option<String>>) -> Seq<Option<Seq<char>>> {
    groups.map_values(
        |g: Option<String>|
            match g {
                Option::Some(s) => Option::Some(s@),
                Option::None => Option::<Seq<char>>::None,
            },
    )
}

/// What the pipeline yields for a capture result. With exactly three
/// groups the event carries nickname and text already separated: both are
/// taken verbatim, the nickname sanitized. Any other shape is a
/// single-field event: the path rule's template has `{{text_leave}}` and
/// then `{{text_join}}` substituted once each, the result is placed into
/// the ruleset's chat template at `{{text}}`, group 1 at `{{player}}`, and
/// the whole is sanitized, with an empty nickname. Absent required groups
/// yield `None`.
pub open spec fn spec_generate_text(
    groups: Seq<Option<Seq<char>>>,
    template: Seq<char>,
    chat: Seq<char>,
    join: Seq<char>,
    leave: Seq<char>,
) -> Option<(Seq<char>, Seq<char>)> {
    if groups.len() == 3 {
        if groups[1] is Some && groups[2] is Some {
            Option::Some((spec_format_mention(groups[1]->Some_0), groups[2]->Some_0))
        } else {
            Option::None
        }
    } else if groups.len() > 1 && groups[1] is Some {
        let t = spec_replace_first(
            spec_replace_first(template, "{{text_leave}}"@, leave),
            "{{text_join}}"@,
            join,
        );
        Option::Some(
            (
                Seq::<char>::empty(),
                spec_format_mention(
                    spec_replace_first(
                        spec_replace_first(chat, "{{text}}"@, t),
                        "{{player}}"@,
                        groups[1]->Some_0,
                    ),
                ),
            ),
        )
    } else {
        Option::None
    }
}

/// Turns one capture result into the pipeline's (nickname, text) pair
/// under the given path rule and ruleset, as `spec_generate_text` states.
pub fn generate_text(reg: &Vec<Option<String>>, pattern: &HandlerPaths, env: &EnvHandler) -> (r:
    Option<(String, String)>)
    ensures
        match r {
            Option::Some(p) => spec_generate_text(
                groups_view(reg@),
                pattern.template@,
                env.text@,
                env.text_join@,
                env.text_leave@,
            ) == Option::Some((p.0@, p.1@)),
            Option::None => spec_generate_text(
                groups_view(reg@),
                pattern.template@,
                env.text@,
                env.text_join@,
                env.text_leave@,
            ) is None,
        },
{
    if reg.len() == 3 {
        let g1 = match &reg[1] {
            Option::Some(s) => s.clone(),
            Option::None => {
                return Option::None;
            },
        };
        let g2 = match &reg[2] {
            Option::Some(s) => s.clone(),
            Option::None => {
                return Option::None;
            },
        };
        return Option::Some((format_mention(g1), g2));
    }
    if reg.len() <= 1 {
        return Option::None;
    }
    let g1 = match &reg[1] {
        Option::Some(s) => s.clone(),
        Option::None => {
            return Option::None;
        },
    };
    let t = replace_first(pattern.template.as_str(), "{{text_leave}}", env.text_leave.as_str());
    let t = replace_first(t.as_str(), "{{text_join}}", env.text_join.as_str());
    let out = replace_first(env.text.as_str(), "{{text}}", t.as_str());
    let out = replace_first(out.as_str(), "{{player}}", g1.as_str());
    Option::Some((String::new(), format_mention(out)))
}

/// The reported form of a connection error: the bare broken-pipe message
/// is translated to one that names the closed socket, any other message is
/// kept as it is.
pub fn err_to_string(err_text: String) -> (r: String)
    ensures
        r@ == if err_text@ == "Broken pipe (os error 32)"@ {
            "Server closed socket(Broken pipe, os error 32)"@
        } else {
            err_text@
        },
{
    let broken = String::from_str("Broken pipe (os error 32)");
    if err_text == broken {
        String::from_str("Server closed socket(Broken pipe, os error 32)")
    } else {
        err_text
    }
}

/// The text after every literal rule is applied in order, each replacing
/// the first occurrence of its literal; a rule whose literal does not
/// occur is a no-op.
pub open spec fn spec_format_text(text: Seq<char>, pairs: Seq<(Seq<char>, Seq<char>)>) -> Seq<
    char,
>
    decreases pairs.len(),
{
    if pairs.len() == 0 {
        text
    } else {
        spec_format_text(spec_replace_first(text, pairs[0].0, pairs[0].1), pairs.drop_first())
    }
}

/// Applies the literal rules in declared order, replacing the first
/// occurrence of each literal.
pub fn format_text(text: String, text_vec: Vec<(String, String)>) -> (r: String)
    ensures
        r@ == spec_format_text(text@, pairs_view(text_vec@)),
{
    let ghost pairs = pairs_view(text_vec@);
    let ghost orig = text@;
    proof {
        assert(pairs.skip(0) =~= pairs);
    }
    let mut text = text;
    let mut i: usize = 0;
    while i < text_vec.len()
        invariant
            0 <= i <= text_vec.len(),
            pairs == pairs_view(text_vec@),
            spec_format_text(text@, pairs.skip(i as int)) == spec_format_text(orig, pairs),
        decreases text_vec.len() - i,
    {
        proof {
            lemma_skip_step(pairs, i as int);
        }
        let p = &text_vec[i];
        text = replace_first(text.as_str(), p.0.as_str(), p.1.as_str());
        i += 1;
    }
    proof {
        assert(pairs.skip(text_vec@.len() as int) =~= Seq::<(Seq<char>, Seq<char>)>::empty());
    }
    text
}

/// Literal rules none of whose literals occur in the text leave it
/// unchanged.
pub proof fn lemma_format_text_no_occurrence(text: Seq<char>, pairs: Seq<(Seq<char>, Seq<char>)>)
    requires
        forall|i: int| 0 <= i < pairs.len() ==> !seq_contains_seq(text, #[trigger] pairs[i].0),
    ensures
        spec_format_text(text, pairs) == text,
    decreases pairs.len(),
{
    if pairs.len() > 0 {
        assert(!seq_contains_seq(text, pairs[0].0));
        assert(spec_replace_first(text, pairs[0].0, pairs[0].1) == text);
        assert(forall|i: int|
            0 <= i < pairs.drop_first().len() ==> pairs.drop_first()[i] == pairs[i + 1]);
        lemma_format_text_no_occurrence(text, pairs.drop_first());
    }
}

/// The text after every regex rule is applied in order: a rule that does
/// not match is skipped; one that matches replaces the first occurrence of
/// its capture group 1's matched substring with the replacement; one that
/// matches without a participating group 1 fails the whole operation.
pub open spec fn spec_format_regex(
    text: Seq<char>,
    rules: Seq<(Seq<char>, Seq<char>)>,
) -> Result<Seq<char>, PipelineError>
    decreases rules.len(),
{
    if rules.len() == 0 {
        Result::Ok(text)
    } else if !regex_is_match(rules[0].0, text) {
        spec_format_regex(text, rules.drop_first())
    } else {
        match regex_group1(rules[0].0, text) {
            Option::None => Result::Err(PipelineError::MissingCaptureGroup),
            Option::Some(g) => spec_format_regex(
                spec_replace_first(text, g, rules[0].1),
                rules.drop_first(),
            ),
        }
    }
}

/// Applies the regex rules in declared order, as `spec_format_regex`
/// states; fails with a corrupt-rule error instead of substituting when a
/// matching rule has no participating capture group 1.
#[verifier::loop_isolation(false)]
pub fn format_regex(text: String, regex_vec: &Vec<(Pattern, String)>) -> (r: Result<
    String,
    PipelineError,
>)
    ensures
        match r {
            Result::Ok(s) => spec_format_regex(text@, rules_view(regex_vec@)) == Result::<
                Seq<char>,
                PipelineError,
            >::Ok(s@),
            Result::Err(e) => spec_format_regex(text@, rules_view(regex_vec@)) == Result::<
                Seq<char>,
                PipelineError,
            >::Err(e),
        },
{
    let ghost rules = rules_view(regex_vec@);
    let ghost orig = text@;
    proof {
        assert(rules.skip(0) =~= rules);
    }
    let mut text = text;
    let mut i: usize = 0;
    while i < regex_vec.len()
        invariant
            0 <= i <= regex_vec.len(),
            rules == rules_view(regex_vec@),
            spec_format_regex(text@, rules.skip(i as int)) == spec_format_regex(orig, rules),
        decreases regex_vec.len() - i,
    {
        proof {
            lemma_skip_step(rules, i as int);
        }
        let p = &regex_vec[i];
        if p.0.is_match(text.as_str()) {
            match p.0.group1(text.as_str()) {
                Option::Some(g) => {
                    text = replace_first(text.as_str(), g.as_str(), p.1.as_str());
                },
                Option::None => {
                    proof {
                        assert(rules[i as int] == (regex_vec@[i as int].0@,
                        regex_vec@[i as int].1@));
                        assert(spec_format_regex(text@, rules.skip(i as int)) == Result::<
                            Seq<char>,
                            PipelineError,
                        >::Err(PipelineError::MissingCaptureGroup));
                    }
                    return Result::Err(PipelineError::MissingCaptureGroup);
                },
            }
        }
        i += 1;
    }
    proof {
        assert(rules.skip(regex_vec@.len() as int) =~= Seq::<(Seq<char>, Seq<char>)>::empty());
    }
    Result::Ok(text)
}

/// Regex rules compose sequentially: applying two rule lists one after the
/// other equals applying their concatenation, so a later rule sees the
/// text already substituted by an earlier one.
pub proof fn lemma_format_regex_sequential(
    text: Seq<char>,
    a: Seq<(Seq<char>, Seq<char>)>,
    b: Seq<(Seq<char>, Seq<char>)>,
)
    ensures
        spec_format_regex(text, a + b) == match spec_format_regex(text, a) {
            Result::Ok(t) => spec_format_regex(t, b),
            Result::Err(e) => Result::<Seq<char>, PipelineError>::Err(e),
        },
    decreases a.len(),
{
    if a.len() == 0 {
        assert(a + b =~= b);
        assert(spec_format_regex(text, a) == Result::<Seq<char>, PipelineError>::Ok(text));
    } else {
        assert((a + b)[0] == a[0]);
        assert((a + b).drop_first() =~= a.drop_first() + b);
        if !regex_is_match(a[0].0, text) {
            lemma_format_regex_sequential(text, a.drop_first(), b);
        } else {
            match regex_group1(a[0].0, text) {
                Option::None => {},
                Option::Some(g) => {
                    lemma_format_regex_sequential(
                        spec_replace_first(text, g, a[0].1),
                        a.drop_first(),
                        b,
                    );
                },
            }
        }
    }
}

} // verus!
