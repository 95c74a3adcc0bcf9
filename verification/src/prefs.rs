//! The preference file of a profile: which of the required settings it
//! already switches on, and what has to be added for the others.
//!
//! A preference file is read line by line. The reader is tolerant: a line
//! that is not of the form `user_pref("<key>", <value>);` is passed over,
//! never reported. It is a classifier of lines, not a parser that could write
//! a file back as it was.

use vstd::prelude::*;
use vstd::slice::slice_subrange;
use vstd::string::StringExecFns;
use crate::text::{
    chars_of, find_char, is_space, lemma_find, lemma_trim_keeps_last, same_chars, split_once,
    split_once_chars, string_of, strip_prefix, strip_prefix_chars, strip_suffix,
    strip_suffix_chars, trim, trim_chars,
};

verus! {

/// The text between the brackets of `user_pref( ... );`, if the line is
/// such a call. White space may stand around the line and between the name
/// and the opening bracket.
pub open spec fn arguments(line: Seq<char>) -> Option<Seq<char>> {
    match strip_prefix(trim(line), "user_pref"@) {
        None => None,
        Some(call) => match strip_suffix(call, ";"@) {
            None => None,
            Some(bracketed) => match strip_prefix(trim(bracketed), "("@) {
                None => None,
                Some(open) => strip_suffix(open, ")"@),
            },
        },
    }
}

/// The text between the double quotes that open and close `s`.
pub open spec fn quoted(s: Seq<char>) -> Option<Seq<char>> {
    match strip_prefix(s, "\""@) {
        None => None,
        Some(rest) => strip_suffix(rest, "\""@),
    }
}

/// The key and the value that a line sets, if it is a well-formed
/// `user_pref` call; `None` for every other line, blank lines and comments
/// among them. The value is given as written, without surrounding space.
pub open spec fn classify(line: Seq<char>) -> Option<(Seq<char>, Seq<char>)> {
    match arguments(line) {
        None => None,
        Some(args) => match split_once(trim(args), ',') {
            None => None,
            Some(parts) => match quoted(trim(parts.0)) {
                None => None,
                Some(key) => Some((key, trim(parts.1))),
            },
        },
    }
}

/// Whether the line switches the setting `key` on: it sets `key`, and to
/// exactly `true`.
pub open spec fn enables(line: Seq<char>, key: Seq<char>) -> bool {
    classify(line) == Some((key, "true"@))
}

/// Whether `lo..hi` is a line of `text`: a longest run without a line feed.
/// A carriage return before the line feed belongs to the line; it is white
/// space at its end and goes when the line is trimmed.
pub open spec fn is_line(text: Seq<char>, lo: int, hi: int) -> bool {
    &&& 0 <= lo <= hi <= text.len()
    &&& (lo == 0 || text[lo - 1] == '\n')
    &&& (hi == text.len() || text[hi] == '\n')
    &&& forall|j: int| lo <= j < hi ==> text[j] != '\n'
}

/// Whether a line of `text` that begins before `limit` switches `key` on.
pub open spec fn observed_before(text: Seq<char>, limit: int, key: Seq<char>) -> bool {
    exists|lo: int, hi: int|
        lo < limit && #[trigger] is_line(text, lo, hi) && enables(text.subrange(lo, hi), key)
}

/// Whether some line of `text` switches `key` on.
pub open spec fn observed(text: Seq<char>, key: Seq<char>) -> bool {
    exists|lo: int, hi: int| #[trigger] is_line(text, lo, hi) && enables(text.subrange(lo, hi), key)
}

/// The settings that a profile needs for themes to load, in the order in
/// which they are checked and written.
pub open spec fn required_keys() -> Seq<Seq<char>> {
    seq![
        "toolkit.legacyUserProfileCustomizations.stylesheets"@,
        "layers.acceleration.force-enabled"@,
        "gfx.webrender.all"@,
        "gfx.webrender.enabled"@,
        "layout.css.backdrop-filter.enabled"@,
        "svg.context-properties.content.enabled"@,
    ]
}

/// Whether `text` switches every required setting on.
pub open spec fn complete(text: Seq<char>) -> bool {
    forall|i: int| 0 <= i < required_keys().len() ==> observed(text, #[trigger] required_keys()[i])
}

/// The line that is written for a setting which the file does not switch
/// on. It records the setting as `false`, whatever the file said of it, and
/// it ends without a semicolon: a later scan passes over it.
pub open spec fn pref_line(key: Seq<char>) -> Seq<char> {
    "user_pref(\""@ + key + "\", false)\n"@
}

/// The lines to add to `text`: one for each of `keys` that it does not
/// switch on, in the order of `keys`.
pub open spec fn missing_lines(text: Seq<char>, keys: Seq<Seq<char>>) -> Seq<char>
    decreases keys.len(),
{
    if keys.len() == 0 {
        Seq::empty()
    } else if observed(text, keys.last()) {
        missing_lines(text, keys.drop_last())
    } else {
        missing_lines(text, keys.drop_last()) + pref_line(keys.last())
    }
}

/// The new content of a preference file: `None` if `text` is complete,
/// else `text` followed by a line for each setting that is missing.
pub open spec fn patched(text: Seq<char>) -> Option<Seq<char>> {
    if complete(text) {
        None
    } else {
        Some(text + missing_lines(text, required_keys()))
    }
}

/// One entry of the checklist that a scan of a preference file fills in.
#[derive(Debug, PartialEq, Eq)]
pub struct ChecklistEntry {
    pub key: String,
    pub required_value: bool,
    pub observed: bool,
}

/// A checklist entry as contracts see it.
pub struct ChecklistEntryView {
    pub key: Seq<char>,
    pub required_value: bool,
    pub observed: bool,
}

impl View for ChecklistEntry {
    type V = ChecklistEntryView;

    open spec fn view(&self) -> ChecklistEntryView {
        ChecklistEntryView {
            key: self.key@,
            required_value: self.required_value,
            observed: self.observed,
        }
    }
}

impl DeepView for ChecklistEntry {
    type V = ChecklistEntryView;

    open spec fn deep_view(&self) -> ChecklistEntryView {
        self@
    }
}

/// The checklist after a scan of `text`: the required settings in order,
/// each with the value `false` that is on record for it and with whether
/// `text` switches it on.
pub open spec fn checklist_of(text: Seq<char>) -> Seq<ChecklistEntryView> {
    Seq::new(
        required_keys().len(),
        |i: int|
            ChecklistEntryView {
                key: required_keys()[i],
                required_value: false,
                observed: observed(text, required_keys()[i]),
            },
    )
}

/// The views of a pair of character slices.
pub open spec fn pair_view(p: Option<(&[char], &[char])>) -> Option<(Seq<char>, Seq<char>)> {
    match p {
        Some(p) => Some((p.0@, p.1@)),
        None => None,
    }
}

/// The view of a character slice that may be absent.
pub open spec fn slice_view(s: Option<&[char]>) -> Option<Seq<char>> {
    match s {
        Some(s) => Some(s@),
        None => None,
    }
}

/// The text between the brackets of a `user_pref` call.
fn arguments_of<'a>(line: &'a [char]) -> (r: Option<&'a [char]>)
    ensures
        slice_view(r) == arguments(line@),
{
    let name = chars_of("user_pref");
    let semicolon = chars_of(";");
    let open = chars_of("(");
    let close = chars_of(")");
    let call = match strip_prefix_chars(trim_chars(line), name.as_slice()) {
        Some(call) => call,
        None => return None,
    };
    let bracketed = match strip_suffix_chars(call, semicolon.as_slice()) {
        Some(bracketed) => bracketed,
        None => return None,
    };
    let opened = match strip_prefix_chars(trim_chars(bracketed), open.as_slice()) {
        Some(opened) => opened,
        None => return None,
    };
    strip_suffix_chars(opened, close.as_slice())
}

/// The text between the double quotes around `s`.
fn quoted_of<'a>(s: &'a [char]) -> (r: Option<&'a [char]>)
    ensures
        slice_view(r) == quoted(s@),
{
    let quote = chars_of("\"");
    match strip_prefix_chars(s, quote.as_slice()) {
        Some(rest) => strip_suffix_chars(rest, quote.as_slice()),
        None => None,
    }
}

/// The key and the value that a line sets, as parts of the line.
pub fn classify_chars<'a>(line: &'a [char]) -> (r: Option<(&'a [char], &'a [char])>)
    ensures
        pair_view(r) == classify(line@),
{
    let args = match arguments_of(line) {
        Some(args) => args,
        None => return None,
    };
    let parts = match split_once_chars(trim_chars(args), ',') {
        Some(parts) => parts,
        None => return None,
    };
    match quoted_of(trim_chars(parts.0)) {
        Some(key) => Some((key, trim_chars(parts.1))),
        None => None,
    }
}

/// Classifies one line of a preference file: the key and the value that it
/// sets, or `None` if it is not a well-formed `user_pref` call.
pub fn classify_line(line: &str) -> (r: Option<(String, String)>)
    ensures
        r.deep_view() == classify(line@),
{
    let chars = chars_of(line);
    match classify_chars(chars.as_slice()) {
        Some(p) => Some((string_of(p.0), string_of(p.1))),
        None => None,
    }
}

/// The number of required settings.
pub const REQUIRED: usize = 6;

/// The required setting at `index`.
fn required_key(index: usize) -> (key: &'static str)
    requires
        index < REQUIRED,
    ensures
        key@ == required_keys()[index as int],
{
    if index == 0 {
        "toolkit.legacyUserProfileCustomizations.stylesheets"
    } else if index == 1 {
        "layers.acceleration.force-enabled"
    } else if index == 2 {
        "gfx.webrender.all"
    } else if index == 3 {
        "gfx.webrender.enabled"
    } else if index == 4 {
        "layout.css.backdrop-filter.enabled"
    } else {
        "svg.context-properties.content.enabled"
    }
}

/// A line takes part in what is observed before the start of the next.
proof fn lemma_next_line(text: Seq<char>, pos: int, end: int, key: Seq<char>)
    requires
        is_line(text, pos, end),
    ensures
        observed_before(text, end + 1, key) <==> (observed_before(text, pos, key) || enables(
            text.subrange(pos, end),
            key,
        )),
{
    if observed_before(text, end + 1, key) {
        let (lo, hi) = choose|lo: int, hi: int|
            lo < end + 1 && #[trigger] is_line(text, lo, hi) && enables(text.subrange(lo, hi), key);
        if lo >= pos {
            if lo > pos {
                assert(text[lo - 1] == '\n');
            }
            if hi < end {
                assert(text[hi] == '\n');
            }
            if hi > end {
                assert(text[end] == '\n');
            }
            assert(lo == pos && hi == end);
        }
    }
    if enables(text.subrange(pos, end), key) {
        assert(is_line(text, pos, end));
    }
}

/// Every line begins at or before the end of the text.
proof fn lemma_observed_at_end(text: Seq<char>, key: Seq<char>)
    ensures
        observed_before(text, (text.len() + 1) as int, key) <==> observed(text, key),
{
    if observed(text, key) {
        let (lo, hi) = choose|lo: int, hi: int| #[trigger]
            is_line(text, lo, hi) && enables(text.subrange(lo, hi), key);
        assert(lo < text.len() + 1 && is_line(text, lo, hi));
    }
}

/// Marks the required settings that one line switches on.
fn mark_line(flags: &mut Vec<bool>, line: &[char])
    requires
        old(flags).len() == REQUIRED,
    ensures
        final(flags).len() == REQUIRED,
        forall|i: int|
            0 <= i < REQUIRED ==> #[trigger] final(flags)[i] == (old(flags)[i] || enables(
                line@,
                required_keys()[i],
            )),
{
    let on = chars_of("true");
    let set = classify_chars(line);
    let mut i: usize = 0;
    while i < REQUIRED
        invariant
            i <= REQUIRED,
            flags.len() == REQUIRED,
            old(flags).len() == REQUIRED,
            on@ == "true"@,
            pair_view(set) == classify(line@),
            forall|j: int|
                0 <= j < i ==> #[trigger] flags[j] == (old(flags)[j] || enables(
                    line@,
                    required_keys()[j],
                )),
            forall|j: int| i <= j < REQUIRED ==> #[trigger] flags[j] == old(flags)[j],
        decreases REQUIRED - i,
    {
        let key = chars_of(required_key(i));
        let hit = match set {
            Some(p) => same_chars(p.0, key.as_slice()) && same_chars(p.1, on.as_slice()),
            None => false,
        };
        assert(hit == enables(line@, required_keys()[i as int]));
        if hit {
            flags[i] = true;
        }
        i += 1;
    }
}

/// For each required setting, in order, whether `text` switches it on.
pub fn scan_chars(text: &[char]) -> (flags: Vec<bool>)
    ensures
        flags.len() == REQUIRED,
        forall|i: int|
            0 <= i < REQUIRED ==> #[trigger] flags[i] == observed(text@, required_keys()[i]),
{
    let mut flags: Vec<bool> = vec![false, false, false, false, false, false];
    let mut pos: usize = 0;
    loop
        invariant_except_break
            pos <= text.len(),
            pos == 0 || text@[pos - 1] == '\n',
            flags.len() == REQUIRED,
            forall|i: int|
                0 <= i < REQUIRED ==> #[trigger] flags[i] == observed_before(
                    text@,
                    pos as int,
                    required_keys()[i],
                ),
        ensures
            flags.len() == REQUIRED,
            forall|i: int|
                0 <= i < REQUIRED ==> #[trigger] flags[i] == observed(text@, required_keys()[i]),
        decreases text.len() - pos,
    {
        let rest = slice_subrange(text, pos, text.len());
        let end: usize = pos + find_char(rest, '\n');
        proof {
            lemma_find(rest@, '\n');
            assert forall|j: int| pos <= j < end implies text@[j] != '\n' by {
                assert(text@[j] == rest@[j - pos]);
            }
            assert(is_line(text@, pos as int, end as int));
        }
        let line = slice_subrange(text, pos, end);
        mark_line(&mut flags, line);
        proof {
            assert forall|i: int| 0 <= i < REQUIRED implies #[trigger] flags[i] == observed_before(
                text@,
                end + 1,
                required_keys()[i],
            ) by {
                lemma_next_line(text@, pos as int, end as int, required_keys()[i]);
            }
        }
        if end == text.len() {
            proof {
                assert forall|i: int| 0 <= i < REQUIRED implies #[trigger] flags[i] == observed(
                    text@,
                    required_keys()[i],
                ) by {
                    lemma_observed_at_end(text@, required_keys()[i]);
                }
            }
            break ;
        }
        pos = end + 1;
    }
    flags
}

/// The checklist of required settings, none of them observed yet.
pub fn checklist() -> (list: Vec<ChecklistEntry>)
    ensures
        list.deep_view() == Seq::new(
            required_keys().len(),
            |i: int|
                ChecklistEntryView { key: required_keys()[i], required_value: false, observed: false },
        ),
{
    let mut list: Vec<ChecklistEntry> = Vec::new();
    let mut i: usize = 0;
    while i < REQUIRED
        invariant
            i <= REQUIRED,
            list.len() == i,
            forall|j: int|
                0 <= j < i ==> (#[trigger] list[j])@ == (ChecklistEntryView {
                    key: required_keys()[j],
                    required_value: false,
                    observed: false,
                }),
        decreases REQUIRED - i,
    {
        list.push(
            ChecklistEntry { key: required_key(i).to_owned(), required_value: false, observed: false },
        );
        i += 1;
    }
    assert(list.deep_view() =~= Seq::new(
        required_keys().len(),
        |i: int|
            ChecklistEntryView { key: required_keys()[i], required_value: false, observed: false },
    ));
    list
}

/// Scans a preference file and fills in the checklist: an entry is
/// observed if some line of `text` sets its key to exactly `true`.
pub fn scan_prefs(text: &str) -> (list: Vec<ChecklistEntry>)
    ensures
        list.deep_view() == checklist_of(text@),
{
    let chars = chars_of(text);
    let flags = scan_chars(chars.as_slice());
    let mut list: Vec<ChecklistEntry> = Vec::new();
    let mut i: usize = 0;
    while i < REQUIRED
        invariant
            i <= REQUIRED,
            list.len() == i,
            flags.len() == REQUIRED,
            forall|j: int| 0 <= j < i ==> (#[trigger] list[j])@ == checklist_of(text@)[j],
            forall|j: int|
                0 <= j < REQUIRED ==> #[trigger] flags[j] == observed(text@, required_keys()[j]),
        decreases REQUIRED - i,
    {
        list.push(
            ChecklistEntry {
                key: required_key(i).to_owned(),
                required_value: false,
                observed: flags[i],
            },
        );
        i += 1;
    }
    assert(list.deep_view() =~= checklist_of(text@));
    list
}

/// What a preference file has to become: `None` if `text` already switches
/// every required setting on, else `text` itself followed by one line
/// `user_pref("<key>", false)` for each setting that it does not switch on.
pub fn patch_prefs(text: &str) -> (r: Option<String>)
    ensures
        r.deep_view() == patched(text@),
{
    let chars = chars_of(text);
    let flags = scan_chars(chars.as_slice());
    let mut out = text.to_owned();
    let mut all = true;
    let mut i: usize = 0;
    while i < REQUIRED
        invariant
            i <= REQUIRED,
            flags.len() == REQUIRED,
            forall|j: int|
                0 <= j < REQUIRED ==> #[trigger] flags[j] == observed(text@, required_keys()[j]),
            all == forall|j: int| 0 <= j < i ==> observed(text@, #[trigger] required_keys()[j]),
            out@ == text@ + missing_lines(text@, required_keys().take(i as int)),
        decreases REQUIRED - i,
    {
        let ghost keys = required_keys().take(i + 1);
        let ghost done = missing_lines(text@, required_keys().take(i as int));
        proof {
            assert(keys.drop_last() =~= required_keys().take(i as int));
            assert(keys.last() == required_keys()[i as int]);
        }
        if !flags[i] {
            all = false;
            out.append("user_pref(\"");
            out.append(required_key(i));
            out.append("\", false)\n");
            assert(out@ =~= text@ + (done + pref_line(required_keys()[i as int])));
        }
        i += 1;
    }
    assert(required_keys().take(REQUIRED as int) =~= required_keys());
    if all {
        None
    } else {
        Some(out)
    }
}

/// A line that is blank, or a comment, sets nothing.
pub proof fn lemma_blank_and_comment_lines_set_nothing(line: Seq<char>)
    requires
        trim(line).len() == 0 || "//"@.is_prefix_of(trim(line)),
    ensures
        classify(line) is None,
{
    reveal_strlit("user_pref");
    reveal_strlit("//");
    let t = trim(line);
    if t.len() > 0 {
        assert(t[0] == "//"@.subrange(0, 2)[0]);
        if "user_pref"@.is_prefix_of(t) {
            assert(t[0] == "user_pref"@.subrange(0, 9)[0]);
        }
    }
}

/// A file that switches every required setting on is left as it is: no
/// backup is made and no line is added, however often it is asked.
pub proof fn lemma_complete_file_is_left_alone(text: Seq<char>)
    requires
        complete(text),
    ensures
        patched(text) is None,
{
}

/// An empty file switches nothing on.
pub proof fn lemma_empty_file_observes_nothing(key: Seq<char>)
    ensures
        !observed(Seq::<char>::empty(), key),
{
    reveal_strlit("user_pref");
    let text = Seq::<char>::empty();
    assert forall|lo: int, hi: int| #[trigger] is_line(text, lo, hi) implies !enables(
        text.subrange(lo, hi),
        key,
    ) by {
        assert(text.subrange(lo, hi) =~= text);
        assert(trim(text) == text);
    }
}

/// An empty or missing file gets exactly six lines, one for each required
/// setting in order, each recording `false`.
pub proof fn lemma_empty_file_gets_every_line()
    ensures
        required_keys().len() == 6,
        patched(Seq::<char>::empty()) == Some(
            pref_line(required_keys()[0]) + pref_line(required_keys()[1]) + pref_line(
                required_keys()[2],
            ) + pref_line(required_keys()[3]) + pref_line(required_keys()[4]) + pref_line(
                required_keys()[5],
            ),
        ),
{
    let text = Seq::<char>::empty();
    let keys = required_keys();
    assert forall|i: int| 0 <= i < 6 implies !observed(text, #[trigger] keys[i]) by {
        lemma_empty_file_observes_nothing(keys[i]);
    }
    assert(!observed(text, keys[0]));
    assert(!complete(text));
    let k5 = keys.take(5);
    let k4 = keys.take(4);
    let k3 = keys.take(3);
    let k2 = keys.take(2);
    let k1 = keys.take(1);
    let k0 = keys.take(0);
    assert(keys.drop_last() =~= k5 && keys.last() == keys[5]);
    assert(k5.drop_last() =~= k4 && k5.last() == keys[4]);
    assert(k4.drop_last() =~= k3 && k4.last() == keys[3]);
    assert(k3.drop_last() =~= k2 && k3.last() == keys[2]);
    assert(k2.drop_last() =~= k1 && k2.last() == keys[1]);
    assert(k1.drop_last() =~= k0 && k1.last() == keys[0]);
    assert(missing_lines(text, k0) =~= Seq::<char>::empty());
    assert(missing_lines(text, k1) =~= pref_line(keys[0]));
    assert(missing_lines(text, k2) == missing_lines(text, k1) + pref_line(keys[1]));
    assert(missing_lines(text, k3) == missing_lines(text, k2) + pref_line(keys[2]));
    assert(missing_lines(text, k4) == missing_lines(text, k3) + pref_line(keys[3]));
    assert(missing_lines(text, k5) == missing_lines(text, k4) + pref_line(keys[4]));
    assert(missing_lines(text, keys) == missing_lines(text, k5) + pref_line(keys[5]));
    assert(text + missing_lines(text, keys) =~= missing_lines(text, keys));
}

/// Whether a text is made of lines that each end with a closing bracket
/// and a line feed.
pub open spec fn is_bracketed(s: Seq<char>) -> bool {
    &&& forall|k: int| 0 <= k < s.len() && #[trigger] s[k] == '\n' ==> k > 0 && s[k - 1] == ')'
    &&& s.len() > 0 ==> s.last() == '\n'
}

/// No required setting has a line feed in its name.
proof fn lemma_required_keys_are_one_line(i: int)
    requires
        0 <= i < required_keys().len(),
    ensures
        !required_keys()[i].contains('\n'),
{
    reveal_strlit("toolkit.legacyUserProfileCustomizations.stylesheets");
    reveal_strlit("layers.acceleration.force-enabled");
    reveal_strlit("gfx.webrender.all");
    reveal_strlit("gfx.webrender.enabled");
    reveal_strlit("layout.css.backdrop-filter.enabled");
    reveal_strlit("svg.context-properties.content.enabled");
    let key = required_keys()[i];
    if key.contains('\n') {
        let j = choose|j: int| 0 <= j < key.len() && key[j] == '\n';
        assert(key[j] == '\n');
    }
}

/// The line written for a setting is bracketed.
proof fn lemma_pref_line_is_bracketed(key: Seq<char>)
    requires
        !key.contains('\n'),
    ensures
        is_bracketed(pref_line(key)),
        pref_line(key).len() > 0,
{
    reveal_strlit("user_pref(\"");
    reveal_strlit("\", false)\n");
    let head = "user_pref(\""@;
    let tail = "\", false)\n"@;
    let line = pref_line(key);
    assert(line.len() == head.len() + key.len() + tail.len());
    assert forall|k: int| 0 <= k < line.len() && #[trigger] line[k] == '\n' implies k > 0
        && line[k - 1] == ')' by {
        if k < head.len() {
            assert(line[k] == head[k]);
        } else if k < head.len() + key.len() {
            assert(line[k] == key[k - head.len()]);
            assert(key.contains(key[k - head.len()]));
        } else {
            let t: int = k - head.len() - key.len();
            assert(line[k] == tail[t]);
            assert(t == 9);
            assert(line[k - 1] == tail[8]);
        }
    }
    assert(line.last() == tail[9]);
}

/// Bracketed texts, put together, are bracketed.
proof fn lemma_bracketed_add(a: Seq<char>, b: Seq<char>)
    requires
        is_bracketed(a),
        is_bracketed(b),
    ensures
        is_bracketed(a + b),
{
    let s = a + b;
    assert forall|k: int| 0 <= k < s.len() && #[trigger] s[k] == '\n' implies k > 0 && s[k - 1]
        == ')' by {
        if k < a.len() {
            assert(s[k] == a[k]);
            assert(s[k - 1] == a[k - 1]);
        } else {
            assert(s[k] == b[k - a.len()]);
            assert(s[k - 1] == b[k - a.len() - 1]);
        }
    }
    if b.len() > 0 {
        assert(s.last() == b.last());
    } else {
        assert(s =~= a);
    }
}

/// The lines added for missing settings are bracketed.
proof fn lemma_missing_lines_are_bracketed(text: Seq<char>, keys: Seq<Seq<char>>)
    requires
        forall|i: int| 0 <= i < keys.len() ==> !(#[trigger] keys[i]).contains('\n'),
    ensures
        is_bracketed(missing_lines(text, keys)),
    decreases keys.len(),
{
    if keys.len() > 0 {
        let before = keys.drop_last();
        assert forall|i: int| 0 <= i < before.len() implies !(#[trigger] before[i]).contains(
            '\n',
        ) by {
            assert(before[i] == keys[i]);
        }
        lemma_missing_lines_are_bracketed(text, before);
        if !observed(text, keys.last()) {
            assert(keys.last() == keys[keys.len() - 1]);
            lemma_pref_line_is_bracketed(keys.last());
            lemma_bracketed_add(missing_lines(text, before), pref_line(keys.last()));
        }
    }
}

/// A line that is empty, or ends with a closing bracket, sets nothing: a
/// `user_pref` call ends with a semicolon.
proof fn lemma_line_without_semicolon_sets_nothing(line: Seq<char>)
    requires
        line.len() == 0 || line.last() == ')',
    ensures
        classify(line) is None,
{
    reveal_strlit("user_pref");
    reveal_strlit(";");
    if line.len() > 0 {
        assert(!is_space(')'));
        lemma_trim_keeps_last(line);
        let t = trim(line);
        if strip_prefix(t, "user_pref"@) is Some {
            let call = strip_prefix(t, "user_pref"@)->0;
            if ";"@.is_suffix_of(call) {
                assert(call.subrange(call.len() - 1, call.len() as int)[0] == ";"@[0]);
                assert(call.last() == t.last());
            }
        }
    }
}

/// Patching switches nothing on: a setting that the new content switches
/// on was switched on by the old one. The lines that are added record
/// `false` and end without a semicolon, and a line of the old content that
/// they are joined to is no longer read as a call.
pub proof fn lemma_patch_switches_nothing_on(text: Seq<char>, key: Seq<char>)
    requires
        observed(text + missing_lines(text, required_keys()), key),
    ensures
        observed(text, key),
{
    let added = missing_lines(text, required_keys());
    let next = text + added;
    let n: int = text.len() as int;
    if added.len() == 0 {
        assert(next =~= text);
    } else {
        assert forall|i: int| 0 <= i < required_keys().len() implies !(
        #[trigger] required_keys()[i]).contains('\n') by {
            lemma_required_keys_are_one_line(i);
        }
        lemma_missing_lines_are_bracketed(text, required_keys());
        let (lo, hi) = choose|lo: int, hi: int| #[trigger]
            is_line(next, lo, hi) && enables(next.subrange(lo, hi), key);
        if hi < n {
            assert(next[hi] == text[hi]);
            if lo > 0 {
                assert(next[lo - 1] == text[lo - 1]);
            }
            assert forall|j: int| lo <= j < hi implies text[j] != '\n' by {
                assert(next[j] == text[j]);
            }
            assert(is_line(text, lo, hi));
            assert(next.subrange(lo, hi) =~= text.subrange(lo, hi));
        } else {
            let line = next.subrange(lo, hi);
            let k: int = hi - n;
            if k == 0 {
                assert(next[hi] == added[0]);
                assert(false);
            } else if k == added.len() {
                assert(next[hi - 1] == added[k - 1]);
                assert(added[k - 1] == added.last());
                assert(lo == hi);
            } else {
                assert(next[hi] == added[k]);
                assert(next[hi - 1] == added[k - 1]);
                if lo < hi {
                    assert(line.last() == next[hi - 1]);
                }
            }
            lemma_line_without_semicolon_sets_nothing(line);
            assert(false);
        }
    }
}

/// A file that was patched is still incomplete: asked again, the tool
/// makes another backup and adds lines once more. Only a file that needs no
/// patch is left alone however often it is asked.
pub proof fn lemma_patched_file_stays_incomplete(text: Seq<char>)
    requires
        !complete(text),
    ensures
        patched(text) matches Some(next) && !complete(next) && patched(next) is Some,
{
    let next = text + missing_lines(text, required_keys());
    let i = choose|i: int|
        0 <= i < required_keys().len() && !observed(text, #[trigger] required_keys()[i]);
    if observed(next, required_keys()[i]) {
        lemma_patch_switches_nothing_on(text, required_keys()[i]);
    }
}

} // verus!
