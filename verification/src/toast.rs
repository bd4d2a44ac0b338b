//! The markup of a toast, and the steps that show it.

use crate::error::{ErrorView, NotifierError, Operation};
use crate::platform::{bare, with_text, Action, Effect, EffectView, Platform};
use crate::script::{effects_view, Script, ScriptView};
use crate::text::{lemma_replace_char_absent, lemma_replace_char_concat, replace_char};
use vstd::prelude::*;
use vstd::string::StringExecFns;

verus! {

/// The entity that stands for `&`.
pub open spec fn entity_amp() -> Seq<char> {
    seq!['&', 'a', 'm', 'p', ';']
}

/// The entity that stands for `<`.
pub open spec fn entity_lt() -> Seq<char> {
    seq!['&', 'l', 't', ';']
}

/// The entity that stands for `>`.
pub open spec fn entity_gt() -> Seq<char> {
    seq!['&', 'g', 't', ';']
}

/// The entity that stands for `"`.
pub open spec fn entity_quot() -> Seq<char> {
    seq!['&', 'q', 'u', 'o', 't', ';']
}

/// The entity that stands for `'`.
pub open spec fn entity_apos() -> Seq<char> {
    seq!['&', 'a', 'p', 'o', 's', ';']
}

/// Whether the character has a meaning of its own in markup.
pub open spec fn is_metacharacter(c: char) -> bool {
    c == '&' || c == '<' || c == '>' || c == '"' || c == '\''
}

/// What stands for one character in markup: its entity for a metacharacter,
/// the character itself otherwise.
pub open spec fn escape_char(c: char) -> Seq<char> {
    if c == '&' {
        entity_amp()
    } else if c == '<' {
        entity_lt()
    } else if c == '>' {
        entity_gt()
    } else if c == '"' {
        entity_quot()
    } else if c == '\'' {
        entity_apos()
    } else {
        seq![c]
    }
}

/// A text as it stands in markup: each character by what stands for it, in
/// the order of the text.
pub open spec fn escape_xml_text(s: Seq<char>) -> Seq<char>
    decreases s.len(),
{
    if s.len() == 0 {
        Seq::<char>::empty()
    } else {
        escape_xml_text(s.drop_last()) + escape_char(s.last())
    }
}

/// Whether `part` stands in `s` from index `at` on.
pub open spec fn occurs_at(s: Seq<char>, at: int, part: Seq<char>) -> bool {
    0 <= at && at + part.len() <= s.len() && s.subrange(at, at + part.len()) == part
}

/// Whether one of the five entities stands in `s` from index `at` on.
pub open spec fn entity_at(s: Seq<char>, at: int) -> bool {
    occurs_at(s, at, entity_amp()) || occurs_at(s, at, entity_lt()) || occurs_at(
        s,
        at,
        entity_gt(),
    ) || occurs_at(s, at, entity_quot()) || occurs_at(s, at, entity_apos())
}

/// Whether no metacharacter stands in `s` for itself: `<`, `>`, `"` and `'`
/// do not occur, and every `&` begins an entity.
pub open spec fn is_escaped(s: Seq<char>) -> bool {
    forall|i: int|
        0 <= i < s.len() ==> {
            &&& (#[trigger] s[i]) != '<'
            &&& s[i] != '>'
            &&& s[i] != '"'
            &&& s[i] != '\''
            &&& (s[i] == '&' ==> entity_at(s, i))
        }
}

/// The text that a piece of markup stands for: each entity by its
/// character, everything else by itself.
pub open spec fn unescape_xml_text(s: Seq<char>) -> Seq<char>
    decreases s.len(),
{
    if s.len() == 0 {
        Seq::<char>::empty()
    } else if occurs_at(s, 0, entity_amp()) {
        seq!['&'] + unescape_xml_text(s.skip(5))
    } else if occurs_at(s, 0, entity_lt()) {
        seq!['<'] + unescape_xml_text(s.skip(4))
    } else if occurs_at(s, 0, entity_gt()) {
        seq!['>'] + unescape_xml_text(s.skip(4))
    } else if occurs_at(s, 0, entity_quot()) {
        seq!['"'] + unescape_xml_text(s.skip(6))
    } else if occurs_at(s, 0, entity_apos()) {
        seq!['\''] + unescape_xml_text(s.skip(6))
    } else {
        seq![s[0]] + unescape_xml_text(s.skip(1))
    }
}

/// The five replacements one after the other, the ampersand first.
pub open spec fn replace_in_turn(s: Seq<char>) -> Seq<char> {
    replace_char(
        replace_char(
            replace_char(
                replace_char(replace_char(s, '&', entity_amp()), '<', entity_lt()),
                '>',
                entity_gt(),
            ),
            '"',
            entity_quot(),
        ),
        '\'',
        entity_apos(),
    )
}

/// Escaping a concatenation is escaping both parts.
pub proof fn lemma_escape_concat(a: Seq<char>, b: Seq<char>)
    ensures
        escape_xml_text(a + b) == escape_xml_text(a) + escape_xml_text(b),
    decreases b.len(),
{
    if b.len() == 0 {
        assert(a + b =~= a);
        assert(escape_xml_text(a) + escape_xml_text(b) =~= escape_xml_text(a));
    } else {
        assert((a + b).drop_last() =~= a + b.drop_last());
        assert((a + b).last() == b.last());
        lemma_escape_concat(a, b.drop_last());
        assert((escape_xml_text(a) + escape_xml_text(b.drop_last())) + escape_char(b.last())
            =~= escape_xml_text(a) + (escape_xml_text(b.drop_last()) + escape_char(b.last())));
    }
}

/// Escaping a text of one character gives what stands for that character.
pub proof fn lemma_escape_single(c: char)
    ensures
        escape_xml_text(seq![c]) == escape_char(c),
{
    let s = seq![c];
    assert(s.drop_last() =~= Seq::<char>::empty());
    assert(escape_xml_text(s.drop_last()) =~= Seq::<char>::empty());
    assert(s.last() == c);
    assert(Seq::<char>::empty() + escape_char(c) =~= escape_char(c));
}

/// No character but the five metacharacters is altered: a text without them
/// is its own escaped form.
pub proof fn lemma_escape_leaves_plain_text(s: Seq<char>)
    requires
        forall|i: int| 0 <= i < s.len() ==> !is_metacharacter(#[trigger] s[i]),
    ensures
        escape_xml_text(s) == s,
    decreases s.len(),
{
    if s.len() == 0 {
        assert(escape_xml_text(s) =~= s);
    } else {
        assert(!is_metacharacter(s[s.len() - 1]));
        assert forall|i: int| 0 <= i < s.drop_last().len() implies !is_metacharacter(
            #[trigger] s.drop_last()[i],
        ) by {
            assert(s.drop_last()[i] == s[i]);
        }
        lemma_escape_leaves_plain_text(s.drop_last());
        assert(s.drop_last() + seq![s.last()] =~= s);
    }
}

/// The five metacharacters never stand for themselves in an escaped text,
/// whatever the text was.
pub proof fn lemma_escape_is_escaped(s: Seq<char>)
    ensures
        is_escaped(escape_xml_text(s)),
    decreases s.len(),
{
    if s.len() == 0 {
    } else {
        let before = escape_xml_text(s.drop_last());
        let piece = escape_char(s.last());
        let out = escape_xml_text(s);
        assert(out == before + piece);
        lemma_escape_is_escaped(s.drop_last());
        assert forall|i: int| 0 <= i < out.len() implies {
            &&& (#[trigger] out[i]) != '<'
            &&& out[i] != '>'
            &&& out[i] != '"'
            &&& out[i] != '\''
            &&& (out[i] == '&' ==> entity_at(out, i))
        } by {
            if i < before.len() {
                assert(out[i] == before[i]);
                if before[i] == '&' {
                    assert(entity_at(before, i));
                    lemma_occurs_in_longer(before, piece, i, entity_amp());
                    lemma_occurs_in_longer(before, piece, i, entity_lt());
                    lemma_occurs_in_longer(before, piece, i, entity_gt());
                    lemma_occurs_in_longer(before, piece, i, entity_quot());
                    lemma_occurs_in_longer(before, piece, i, entity_apos());
                }
            } else {
                let k = i - before.len();
                assert(out[i] == piece[k]);
                if out[i] == '&' {
                    assert(k == 0);
                    assert(is_metacharacter(s.last()));
                    assert(out.subrange(i, i + piece.len()) =~= piece);
                    assert(occurs_at(out, i, piece));
                }
            }
        }
    }
}

/// What stands in a text from some index on still stands there when the text
/// is made longer at its end.
proof fn lemma_occurs_in_longer(s: Seq<char>, more: Seq<char>, at: int, part: Seq<char>)
    ensures
        occurs_at(s, at, part) ==> occurs_at(s + more, at, part),
{
    if occurs_at(s, at, part) {
        assert((s + more).subrange(at, at + part.len()) =~= s.subrange(at, at + part.len()));
    }
}

/// A text that differs from `part` in one of the characters of `part` does
/// not begin with `part`.
proof fn lemma_begins_otherwise(s: Seq<char>, part: Seq<char>, index: int)
    requires
        0 <= index < part.len(),
        index < s.len() ==> s[index] != part[index],
    ensures
        !occurs_at(s, 0, part),
{
    if occurs_at(s, 0, part) {
        assert(s.subrange(0, part.len() as int)[index] == s[index]);
    }
}

/// Escaping loses nothing: reading the entities of an escaped text back
/// gives the text that was escaped.
pub proof fn lemma_unescape_escape(s: Seq<char>)
    ensures
        unescape_xml_text(escape_xml_text(s)) == s,
    decreases s.len(),
{
    if s.len() == 0 {
        assert(escape_xml_text(s) =~= Seq::<char>::empty());
    } else {
        let c = s[0];
        let rest = s.skip(1);
        assert(seq![c] + rest =~= s);
        lemma_escape_concat(seq![c], rest);
        lemma_escape_single(c);
        let piece = escape_char(c);
        let tail = escape_xml_text(rest);
        let out = escape_xml_text(s);
        assert(out == piece + tail);
        lemma_unescape_escape(rest);
        assert(out.skip(piece.len() as int) =~= tail);
        assert(out[0] == piece[0]);
        // Where the entities differ from what stands for `c`: an entity
        // from another in its second character (`&amp;` from `&apos;` in its
        // third), a plain character from every entity in the first.
        let at: int = if is_metacharacter(c) {
            1
        } else {
            0
        };
        if is_metacharacter(c) {
            assert(out.subrange(0, piece.len() as int) =~= piece);
            assert(out[1] == piece[1]);
            assert(out[2] == piece[2]);
        }
        if c != '&' {
            lemma_begins_otherwise(out, entity_amp(), if c == '\'' {
                2
            } else {
                at
            });
        }
        if c != '<' {
            lemma_begins_otherwise(out, entity_lt(), at);
        }
        if c != '>' {
            lemma_begins_otherwise(out, entity_gt(), at);
        }
        if c != '"' {
            lemma_begins_otherwise(out, entity_quot(), at);
        }
        if c != '\'' {
            lemma_begins_otherwise(out, entity_apos(), if c == '&' {
                2
            } else {
                at
            });
        }
        assert(unescape_xml_text(out) == seq![c] + unescape_xml_text(tail));
    }
}

/// The five replacements in turn, on a concatenation, act on both parts.
proof fn lemma_replace_in_turn_concat(a: Seq<char>, b: Seq<char>)
    ensures
        replace_in_turn(a + b) == replace_in_turn(a) + replace_in_turn(b),
{
    lemma_replace_char_concat(a, b, '&', entity_amp());
    let a1 = replace_char(a, '&', entity_amp());
    let b1 = replace_char(b, '&', entity_amp());
    lemma_replace_char_concat(a1, b1, '<', entity_lt());
    let a2 = replace_char(a1, '<', entity_lt());
    let b2 = replace_char(b1, '<', entity_lt());
    lemma_replace_char_concat(a2, b2, '>', entity_gt());
    let a3 = replace_char(a2, '>', entity_gt());
    let b3 = replace_char(b2, '>', entity_gt());
    lemma_replace_char_concat(a3, b3, '"', entity_quot());
    let a4 = replace_char(a3, '"', entity_quot());
    let b4 = replace_char(b3, '"', entity_quot());
    lemma_replace_char_concat(a4, b4, '\'', entity_apos());
}

/// Replacing in a text of one character.
proof fn lemma_replace_single(c: char, target: char, with: Seq<char>)
    ensures
        replace_char(seq![c], target, with) == (if c == target {
            with
        } else {
            seq![c]
        }),
{
    let s = seq![c];
    assert(s.drop_last() =~= Seq::<char>::empty());
    assert(replace_char(s.drop_last(), target, with) =~= Seq::<char>::empty());
    assert(s.last() == c);
    assert(Seq::<char>::empty() + with =~= with);
    assert(Seq::<char>::empty() + seq![c] =~= seq![c]);
}

/// The five replacements in turn, on a text of one character, give what
/// stands for that character.
proof fn lemma_replace_in_turn_single(c: char)
    ensures
        replace_in_turn(seq![c]) == escape_char(c),
{
    lemma_replace_single(c, '&', entity_amp());
    let s1 = replace_char(seq![c], '&', entity_amp());
    if c == '&' {
        assert(s1 == entity_amp());
    } else {
        lemma_replace_single(c, '<', entity_lt());
    }
    if !s1.contains('<') {
        lemma_replace_char_absent(s1, '<', entity_lt());
    }
    let s2 = replace_char(s1, '<', entity_lt());
    if c != '&' && c != '<' {
        lemma_replace_single(c, '>', entity_gt());
    }
    if !s2.contains('>') {
        lemma_replace_char_absent(s2, '>', entity_gt());
    }
    let s3 = replace_char(s2, '>', entity_gt());
    if c != '&' && c != '<' && c != '>' {
        lemma_replace_single(c, '"', entity_quot());
    }
    if !s3.contains('"') {
        lemma_replace_char_absent(s3, '"', entity_quot());
    }
    let s4 = replace_char(s3, '"', entity_quot());
    if !is_metacharacter(c) || c == '\'' {
        lemma_replace_single(c, '\'', entity_apos());
    }
    if !s4.contains('\'') {
        lemma_replace_char_absent(s4, '\'', entity_apos());
    }
}

/// Escaping is the five replacements made one after the other with the
/// ampersand first, so that the ampersand of an entity is never replaced
/// again.
pub proof fn lemma_escape_is_replacement_in_turn(s: Seq<char>)
    ensures
        escape_xml_text(s) == replace_in_turn(s),
    decreases s.len(),
{
    if s.len() == 0 {
        assert(replace_char(s, '&', entity_amp()) =~= s);
        assert(replace_char(s, '<', entity_lt()) =~= s);
        assert(replace_char(s, '>', entity_gt()) =~= s);
        assert(replace_char(s, '"', entity_quot()) =~= s);
        assert(replace_char(s, '\'', entity_apos()) =~= s);
        assert(escape_xml_text(s) =~= s);
    } else {
        lemma_escape_is_replacement_in_turn(s.drop_last());
        assert(s.drop_last() + seq![s.last()] =~= s);
        lemma_replace_in_turn_concat(s.drop_last(), seq![s.last()]);
        lemma_replace_in_turn_single(s.last());
    }
}

/// Escapes the five metacharacters of a text.
pub fn escape_xml(s: &str) -> (out: String)
    ensures
        out@ == escape_xml_text(s@),
{
    proof {
        reveal_strlit("&amp;");
        reveal_strlit("&lt;");
        reveal_strlit("&gt;");
        reveal_strlit("&quot;");
        reveal_strlit("&apos;");
    }
    assert("&amp;"@ =~= entity_amp());
    assert("&lt;"@ =~= entity_lt());
    assert("&gt;"@ =~= entity_gt());
    assert("&quot;"@ =~= entity_quot());
    assert("&apos;"@ =~= entity_apos());
    let mut out = String::new();
    for c in it: s.chars()
        invariant
            it.seq() == s@,
            out@ == escape_xml_text(s@.take(it.index() as int)),
            "&amp;"@ == entity_amp(),
            "&lt;"@ == entity_lt(),
            "&gt;"@ == entity_gt(),
            "&quot;"@ == entity_quot(),
            "&apos;"@ == entity_apos(),
    {
        assert(s@.take(it.index() + 1).drop_last() == s@.take(it.index() as int));
        if c == '&' {
            out.append("&amp;");
        } else if c == '<' {
            out.append("&lt;");
        } else if c == '>' {
            out.append("&gt;");
        } else if c == '"' {
            out.append("&quot;");
        } else if c == '\'' {
            out.append("&apos;");
        } else {
            out.push(c);
        }
    }
    assert(s@.take(s@.len() as int) == s@);
    out
}

/// The markup up to the title.
pub open spec fn markup_head() -> Seq<char> {
    "<toast>\n    <visual>\n        <binding template=\"ToastGeneric\">\n            <text>"@
}

/// The markup between the title and the message.
pub open spec fn markup_between() -> Seq<char> {
    "</text>\n            <text>"@
}

/// The markup between the message and the audio element.
pub open spec fn markup_after() -> Seq<char> {
    "</text>\n        </binding>\n    </visual>\n    "@
}

/// The markup behind the audio element.
pub open spec fn markup_end() -> Seq<char> {
    "\n</toast>"@
}

/// The audio element: silence, or the default notification sound.
pub open spec fn audio_element(silent: bool) -> Seq<char> {
    if silent {
        "<audio silent=\"true\"/>"@
    } else {
        "<audio src=\"ms-winsoundevent:Notification.Default\"/>"@
    }
}

/// The markup of a toast with two lines of text, the escaped title and the
/// escaped message, and one audio element.
pub open spec fn toast_markup(title: Seq<char>, message: Seq<char>, silent: bool) -> Seq<char> {
    markup_head() + escape_xml_text(title) + markup_between() + escape_xml_text(message)
        + markup_after() + audio_element(silent) + markup_end()
}

/// Builds the markup of a toast.
pub fn create_toast_xml(title: &str, message: &str, silent: bool) -> (xml: String)
    ensures
        xml@ == toast_markup(title@, message@, silent),
{
    let audio = if silent {
        "<audio silent=\"true\"/>"
    } else {
        "<audio src=\"ms-winsoundevent:Notification.Default\"/>"
    };
    let escaped_title = escape_xml(title);
    let escaped_message = escape_xml(message);
    let mut xml =
        "<toast>\n    <visual>\n        <binding template=\"ToastGeneric\">\n            <text>".to_owned();
    xml.append(escaped_title.as_str());
    xml.append("</text>\n            <text>");
    xml.append(escaped_message.as_str());
    xml.append("</text>\n        </binding>\n    </visual>\n    ");
    xml.append(audio);
    xml.append("\n</toast>");
    xml
}

/// How long the notifier waits after the toast was shown, in milliseconds.
pub const SETTLE_MILLIS: u64 = 100;

/// The steps that show a toast: the markup is loaded into a document, a
/// toast is made of it and shown by the notifier of the application whose
/// identity is `app_id`; then the notifier waits a moment.
pub open spec fn notification_effects(
    app_id: Seq<char>,
    title: Seq<char>,
    message: Seq<char>,
    silent: bool,
) -> Seq<EffectView> {
    seq![
        bare(Action::CreateXmlDocument),
        with_text(Action::LoadXml, toast_markup(title, message, silent)),
        bare(Action::CreateToast),
        with_text(Action::CreateNotifier, app_id),
        bare(Action::ShowToast),
        bare(Action::Sleep(SETTLE_MILLIS)),
    ]
}

/// What `send_notification` starts: on Windows the script of the steps
/// above, elsewhere a script that has failed already.
pub open spec fn notification_script(
    platform: Platform,
    app_id: Seq<char>,
    title: Seq<char>,
    message: Seq<char>,
    silent: bool,
) -> ScriptView {
    match platform {
        Platform::Windows => ScriptView::fresh(
            notification_effects(app_id, title, message, silent),
        ),
        Platform::Other => ScriptView::failed(
            ErrorView::UnsupportedPlatform { operation: Operation::Notification },
        ),
    }
}

/// Starts showing a toast with the given title and message under the
/// application identity `app_id`. The script asks for nothing on a platform
/// other than Windows and ends with `UnsupportedPlatform` there.
pub fn send_notification(
    platform: Platform,
    app_id: &str,
    title: &str,
    message: &str,
    silent: bool,
) -> (script: Script)
    ensures
        script@ == notification_script(platform, app_id@, title@, message@, silent),
{
    match platform {
        Platform::Other => Script::failed(
            NotifierError::UnsupportedPlatform { operation: Operation::Notification },
        ),
        Platform::Windows => {
            let xml = create_toast_xml(title, message, silent);
            let mut effects: Vec<Effect> = Vec::new();
            effects.push(Effect::bare(Action::CreateXmlDocument));
            effects.push(Effect::with_text(Action::LoadXml, xml.as_str()));
            effects.push(Effect::bare(Action::CreateToast));
            effects.push(Effect::with_text(Action::CreateNotifier, app_id));
            effects.push(Effect::bare(Action::ShowToast));
            effects.push(Effect::bare(Action::Sleep(SETTLE_MILLIS)));
            assert(effects_view(effects@) =~= notification_effects(
                app_id@,
                title@,
                message@,
                silent,
            ));
            Script::new(effects)
        },
    }
}

} // verus!
