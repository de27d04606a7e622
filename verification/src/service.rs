//! The system commands that the program runs, and how their results are read.

use vstd::prelude::*;

verus! {

/// The characters with the Unicode property `White_Space`.
pub open spec fn white_space(c: char) -> bool {
    let u = c as u32;
    ||| 9 <= u <= 13
    ||| u == 0x20
    ||| u == 0x85
    ||| u == 0xA0
    ||| u == 0x1680
    ||| 0x2000 <= u <= 0x200A
    ||| u == 0x2028
    ||| u == 0x2029
    ||| u == 0x202F
    ||| u == 0x205F
    ||| u == 0x3000
}

/// Whether a character has the Unicode property `White_Space`.
pub fn is_white_space(c: char) -> (b: bool)
    ensures
        b == white_space(c),
{
    let u: u32 = c as u32;
    (9 <= u && u <= 13) || u == 0x20 || u == 0x85 || u == 0xA0 || u == 0x1680 || (0x2000 <= u && u
        <= 0x200A) || u == 0x2028 || u == 0x2029 || u == 0x202F || u == 0x205F || u == 0x3000
}

/// A text without the white space that it begins with.
pub open spec fn trim_start(s: Seq<char>) -> Seq<char>
    decreases s.len(),
{
    if s.len() > 0 && white_space(s.first()) {
        trim_start(s.drop_first())
    } else {
        s
    }
}

/// A text without the white space that it ends with.
pub open spec fn trim_end(s: Seq<char>) -> Seq<char>
    decreases s.len(),
{
    if s.len() > 0 && white_space(s.last()) {
        trim_end(s.drop_last())
    } else {
        s
    }
}

/// A text without the white space around it.
pub open spec fn trimmed(s: Seq<char>) -> Seq<char> {
    trim_end(trim_start(s))
}

/// The text without the white space around it.
pub fn trim(text: &str) -> (inner: &str)
    ensures
        inner@ == trimmed(text@),
{
    let len: usize = text.unicode_len();
    let mut start: usize = 0;
    assert(text@.skip(0) =~= text@);
    while start < len && is_white_space(text.get_char(start))
        invariant
            start <= len,
            len == text@.len(),
            trim_start(text@) == trim_start(text@.skip(start as int)),
        decreases len - start,
    {
        assert(text@.skip(start as int).drop_first() =~= text@.skip(start + 1));
        start = start + 1;
    }
    let ghost rest = text@.skip(start as int);
    assert(trim_start(text@) == rest);
    let mut end: usize = len;
    assert(rest.take(end - start) =~= rest);
    while end > start && is_white_space(text.get_char(end - 1))
        invariant
            start <= end <= len,
            len == text@.len(),
            rest == text@.skip(start as int),
            trim_end(rest) == trim_end(rest.take(end - start)),
        decreases end,
    {
        assert(rest.take(end - start).drop_last() =~= rest.take(end - start - 1));
        assert(rest.take(end - start).last() == text@[end - 1]);
        end = end - 1;
    }
    assert(end > start ==> rest.take(end - start).last() == text@[end - 1]);
    let inner: &str = text.substring_char(start, end);
    assert(inner@ =~= rest.take(end - start));
    inner
}

/// What bytes read as, with a replacement character for whatever is not UTF-8.
pub uninterp spec fn utf8_lossy(bytes: Seq<u8>) -> Seq<char>;

/// Calls `String::from_utf8_lossy`. Bytes that are valid UTF-8 are decoded; in the text of
/// other bytes there is a replacement character, and where it stands is left unsaid.
#[verifier::external_body]
fn lossy_text(bytes: &Vec<u8>) -> (text: String)
    ensures
        text@ == utf8_lossy(bytes@),
        vstd::utf8::valid_utf8(bytes@) ==> text@ == vstd::utf8::decode_utf8(bytes@),
        !vstd::utf8::valid_utf8(bytes@) ==> text@.contains('\u{FFFD}'),
{
    String::from_utf8_lossy(bytes).into_owned()
}

/// What a command left behind.
#[derive(Clone, Debug)]
pub struct CommandOutput {
    /// It ended without an error.
    pub success: bool,
    /// What it wrote.
    pub stdout: Vec<u8>,
}

/// Whether the service manager's reply says that a service is active.
pub fn reply_is_active(reply: &str) -> (active: bool)
    ensures
        active == (trimmed(reply@) == "active"@),
{
    trim(reply).to_owned() == "active".to_owned()
}

/// Trimming takes nothing but white space away.
proof fn trimmed_keeps(s: Seq<char>, c: char)
    requires
        s.contains(c),
        !white_space(c),
    ensures
        trimmed(s).contains(c),
    decreases s.len(),
{
    let i = choose|i: int| 0 <= i < s.len() && s[i] == c;
    if white_space(s.first()) {
        assert(s.drop_first()[i - 1] == c);
        trimmed_keeps(s.drop_first(), c);
    } else {
        trim_end_keeps(s, c);
    }
}

proof fn trim_end_keeps(s: Seq<char>, c: char)
    requires
        s.contains(c),
        !white_space(c),
    ensures
        trim_end(s).contains(c),
    decreases s.len(),
{
    let i = choose|i: int| 0 <= i < s.len() && s[i] == c;
    if white_space(s.last()) {
        assert(s.drop_last()[i] == c);
        trim_end_keeps(s.drop_last(), c);
    }
}

/// Whether the NTP service runs, by what the service manager left behind; `None` stands for
/// a service manager that could not be asked. Output that is not UTF-8 says nothing.
pub fn ntp_service_active(output: &Option<CommandOutput>) -> (active: bool)
    ensures
        active == (output matches Some(o) && o.success && vstd::utf8::valid_utf8(o.stdout@)
            && trimmed(vstd::utf8::decode_utf8(o.stdout@)) == "active"@),
{
    match output {
        Some(o) => {
            let reply: String = lossy_text(&o.stdout);
            proof {
                if !vstd::utf8::valid_utf8(o.stdout@) {
                    reveal_strlit("active");
                    trimmed_keeps(reply@, '\u{FFFD}');
                    assert(!"active"@.contains('\u{FFFD}'));
                }
            }
            o.success && reply_is_active(reply.as_str())
        },
        None => false,
    }
}

/// The arguments with which the service manager is asked for the NTP service.
pub fn ntp_query_args() -> (args: Vec<&'static str>)
    ensures
        args@.len() == 2,
        args@[0]@ == "is-active"@,
        args@[1]@ == "ntpd"@,
{
    vec!["is-active", "ntpd"]
}

/// The arguments with which the service manager starts or stops the NTP service.
pub fn ntp_toggle_args(start: bool) -> (args: Vec<&'static str>)
    ensures
        args@.len() == 2,
        args@[0]@ == (if start { "start"@ } else { "stop"@ }),
        args@[1]@ == "ntpd"@,
{
    let action: &'static str = if start { "start" } else { "stop" };
    vec![action, "ntpd"]
}

/// The arguments of `sudo` that set the time of day.
pub fn date_args<'a>(time: &'a str) -> (args: Vec<&'a str>)
    ensures
        args@.len() == 3,
        args@[0]@ == "date"@,
        args@[1]@ == "-s"@,
        args@[2]@ == time@,
{
    vec!["date", "-s", time]
}

/// What setting the time of day came to, by whether the command ended without an error.
pub fn date_outcome(success: bool) -> (outcome: Result<(), &'static str>)
    ensures
        outcome is Ok <==> success,
        outcome matches Err(message) ==> message@ == "date command failed"@,
{
    if success {
        Ok(())
    } else {
        Err("date command failed")
    }
}

/// White space around a reply does not matter: a word without white space at its ends is
/// found whatever white space stands around it.
pub proof fn trimmed_finds_word(before: Seq<char>, word: Seq<char>, after: Seq<char>)
    requires
        forall|i: int| 0 <= i < before.len() ==> white_space(#[trigger] before[i]),
        forall|i: int| 0 <= i < after.len() ==> white_space(#[trigger] after[i]),
        word.len() > 0,
        !white_space(word.first()),
        !white_space(word.last()),
    ensures
        trimmed(before + word + after) == word,
    decreases before.len(), after.len(),
{
    if before.len() > 0 {
        let s = before + word + after;
        assert(s.first() == before[0]);
        assert(s.drop_first() =~= before.drop_first() + word + after);
        trimmed_finds_word(before.drop_first(), word, after);
    } else {
        assert(before + word + after =~= word + after);
        assert((word + after).first() == word.first());
        if after.len() > 0 {
            assert((word + after).last() == after.last());
            assert((word + after).drop_last() =~= word + after.drop_last());
            assert(before + word + after.drop_last() =~= word + after.drop_last());
            assert((word + after.drop_last()).first() == word.first());
            trimmed_finds_word(before, word, after.drop_last());
        } else {
            assert(word + after =~= word);
        }
    }
}

/// Trimming leaves a part of the text: before it and behind it there is nothing but white
/// space, and it neither begins nor ends with white space.
pub proof fn trimmed_is_the_inside(s: Seq<char>) -> (bounds: (int, int))
    ensures
        0 <= bounds.0 <= bounds.1 <= s.len(),
        trimmed(s) == s.subrange(bounds.0, bounds.1),
        forall|i: int| 0 <= i < bounds.0 ==> white_space(#[trigger] s[i]),
        forall|i: int| bounds.1 <= i < s.len() ==> white_space(#[trigger] s[i]),
        trimmed(s).len() > 0 ==> !white_space(trimmed(s).first()) && !white_space(
            trimmed(s).last(),
        ),
    decreases s.len(),
{
    if s.len() > 0 && white_space(s.first()) {
        let rest = s.drop_first();
        let inner = trimmed_is_the_inside(rest);
        let bounds = (inner.0 + 1, inner.1 + 1);
        assert(trimmed(s) =~= s.subrange(bounds.0, bounds.1));
        assert forall|i: int| 0 <= i < bounds.0 implies white_space(#[trigger] s[i]) by {
            if i > 0 {
                assert(s[i] == rest[i - 1]);
            }
        }
        assert forall|i: int| bounds.1 <= i < s.len() implies white_space(#[trigger] s[i]) by {
            assert(s[i] == rest[i - 1]);
        }
        bounds
    } else {
        let end = trim_end_is_a_prefix(s);
        (0, end)
    }
}

proof fn trim_end_is_a_prefix(s: Seq<char>) -> (end: int)
    ensures
        0 <= end <= s.len(),
        trim_end(s) == s.subrange(0, end),
        forall|i: int| end <= i < s.len() ==> white_space(#[trigger] s[i]),
        end > 0 ==> !white_space(s[end - 1]),
    decreases s.len(),
{
    if s.len() > 0 && white_space(s.last()) {
        let end = trim_end_is_a_prefix(s.drop_last());
        assert(trim_end(s) =~= s.subrange(0, end));
        assert forall|i: int| end <= i < s.len() implies white_space(#[trigger] s[i]) by {
            if i < s.len() - 1 {
                assert(s[i] == s.drop_last()[i]);
            }
        }
        end
    } else {
        assert(s.subrange(0, s.len() as int) =~= s);
        s.len() as int
    }
}

} // verus!
