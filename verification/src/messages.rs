//! Localization: message keys, catalog lookup, and positional
//! parameter substitution.

use vstd::prelude::*;

verus! {

/// The closed set of messages the session prints.
#[derive(Debug, Clone, Copy, PartialEq, Eq, Structural)]
pub enum MessageKey {
    /// The per-round prompt: round number, round count, equation.
    Prompt,
    /// Praise for a correct answer.
    Correct,
    /// The correction, with the true answer.
    Wrong,
    /// The notice that only numbers are accepted.
    OnlyNumbers,
    /// The end-of-session summary: correct, total, percentage.
    Summary,
}

/// The catalog id under which each message is filed.
pub open spec fn spec_msgid(k: MessageKey) -> Seq<char> {
    match k {
        MessageKey::Prompt => "Print Task"@,
        MessageKey::Correct => "Print Well Done"@,
        MessageKey::Wrong => "Print False"@,
        MessageKey::OnlyNumbers => "Print Error: Only numbers"@,
        MessageKey::Summary => "Print Stats"@,
    }
}

impl MessageKey {
    /// The catalog id of this message.
    pub fn msgid(&self) -> (r: &'static str)
        ensures
            r@ == spec_msgid(*self),
    {
        match self {
            MessageKey::Prompt => "Print Task",
            MessageKey::Correct => "Print Well Done",
            MessageKey::Wrong => "Print False",
            MessageKey::OnlyNumbers => "Print Error: Only numbers",
            MessageKey::Summary => "Print Stats",
        }
    }
}

/// The views of a list of argument strings.
pub open spec fn views_of(args: Seq<String>) -> Seq<Seq<char>> {
    args.map_values(|a: String| a@)
}

/// Positional substitution: each `{}` of the template is replaced by
/// the next argument, left to right. A `{}` beyond the last argument
/// stays as it is; arguments beyond the last `{}` are dropped.
pub open spec fn spec_format(t: Seq<char>, args: Seq<Seq<char>>) -> Seq<char>
    decreases t.len(),
{
    if t.len() >= 2 && t[0] == '{' && t[1] == '}' && args.len() > 0 {
        args[0] + spec_format(t.subrange(2, t.len() as int), args.drop_first())
    } else if t.len() == 0 {
        Seq::empty()
    } else {
        seq![t[0]] + spec_format(t.drop_first(), args)
    }
}

/// Substitutes the arguments into the template's `{}` placeholders
/// in order.
pub fn format_template(template: &str, args: &Vec<String>) -> (r: String)
    ensures
        r@ == spec_format(template@, views_of(args@)),
{
    let ghost views: Seq<Seq<char>> = views_of(args@);
    let nargs = args.len();
    let len = template.unicode_len();
    let mut out = String::new();
    let mut i: usize = 0;
    let mut k: usize = 0;
    proof {
        assert(template@.subrange(0, len as int) =~= template@);
        assert(views.subrange(0, nargs as int) =~= views);
        assert(out@ + spec_format(template@, views) =~= spec_format(template@, views));
    }
    while i < len
        invariant
            0 <= i <= len,
            0 <= k <= nargs,
            len == template@.len(),
            nargs == args@.len(),
            views == views_of(args@),
            out@ + spec_format(
                template@.subrange(i as int, len as int),
                views.subrange(k as int, nargs as int),
            ) == spec_format(template@, views),
        decreases len - i,
    {
        let ghost rest = template@.subrange(i as int, len as int);
        let ghost rem = views.subrange(k as int, nargs as int);
        let c = template.get_char(i);
        if c == '{' && i + 1 < len && k < nargs && template.get_char(i + 1) == '}' {
            proof {
                assert(rest[0] == '{' && rest[1] == '}');
                assert(rest.subrange(2, rest.len() as int) =~= template@.subrange(
                    i + 2,
                    len as int,
                ));
                assert(rem.drop_first() =~= views.subrange(k + 1, nargs as int));
                assert(rem[0] == args@[k as int]@);
            }
            let arg = &args[k];
            out.append(arg.as_str());
            k = k + 1;
            i = i + 2;
        } else {
            let piece = template.substring_char(i, i + 1);
            proof {
                assert(rest.len() >= 2 && rest[0] == '{' && rest[1] == '}' ==> rem.len() == 0);
                assert(rest.drop_first() =~= template@.subrange(i + 1, len as int));
                assert(piece@ =~= seq![rest[0]]);
            }
            out.append(piece);
            i = i + 1;
        }
    }
    proof {
        assert(template@.subrange(i as int, len as int) =~= Seq::<char>::empty());
        assert(out@ =~= spec_format(template@, views));
    }
    out
}

/// Relies on gettextrs::gettext: looks the message id up in the
/// catalog of the active text domain and returns the translation, or
/// the id itself when the catalog has none. Which of the two comes
/// back depends on the catalogs installed on the host, so nothing is
/// promised of the result. gettext panics on an id with an interior
/// NUL byte; the precondition rules such ids out.
#[verifier::external_body]
fn lookup_translation(msgid: &str) -> (r: String)
    requires
        forall|i: int| 0 <= i < msgid@.len() ==> msgid@[i] != '\0',
{
    gettextrs::gettext(msgid)
}

/// The message for a key in the active locale, with the arguments
/// substituted for its placeholders. The template comes from the
/// host's catalog, so only the substitution itself is pinned down:
/// the result is some template with the arguments formatted in.
pub fn localized_message(key: MessageKey, args: &Vec<String>) -> (r: String)
    ensures
        exists|t: Seq<char>| r@ == #[trigger] spec_format(t, views_of(args@)),
{
    let msgid = key.msgid();
    proof {
        reveal_strlit("Print Task");
        reveal_strlit("Print Well Done");
        reveal_strlit("Print False");
        reveal_strlit("Print Error: Only numbers");
        reveal_strlit("Print Stats");
        assert(forall|i: int| 0 <= i < msgid@.len() ==> msgid@[i] != '\0');
    }
    let template = lookup_translation(msgid);
    let r = format_template(template.as_str(), args);
    proof {
        assert(r@ == spec_format(template@, views_of(args@)));
    }
    r
}

} // verus!
