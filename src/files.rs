use vstd::prelude::*;
use vstd::slice::slice_subrange;
use vstd::utf8::valid_utf8;

verus! {

#[verifier::external_type_specification]
#[verifier::external_body]
pub struct ExAnyhowError(anyhow::Error);

/// Relies on std::str::from_utf8: it succeeds exactly on valid UTF-8.
#[verifier::external_body]
fn is_valid_utf8(b: &[u8]) -> (r: bool)
    ensures
        r == valid_utf8(b@),
{
    std::str::from_utf8(b).is_ok()
}

/// What one line contributes to `join`: lines that are not UTF-8 are dropped,
/// and a terminated line loses a carriage return before its newline.
pub open spec fn line_bytes(line: Seq<u8>, terminated: bool) -> Seq<u8> {
    if !valid_utf8(line) {
        Seq::empty()
    } else if terminated && line.len() > 0 && line.last() == 13u8 {
        line.drop_last()
    } else {
        line
    }
}

/// The joined lines of `b`, scanning from `i` inside the line that starts at `start`.
pub open spec fn join_from(b: Seq<u8>, start: int, i: int) -> Seq<u8>
    decreases b.len() - i,
{
    if i >= b.len() {
        line_bytes(b.subrange(start, b.len() as int), false)
    } else if b[i] == 10u8 {
        line_bytes(b.subrange(start, i), true) + join_from(b, i + 1, i + 1)
    } else {
        join_from(b, start, i + 1)
    }
}

/// The lines of `b` (split at newline bytes) concatenated without their line ends.
pub open spec fn joined(b: Seq<u8>) -> Seq<u8> {
    join_from(b, 0, 0)
}

fn append_line(out: &mut Vec<u8>, line: &[u8], terminated: bool)
    ensures
        final(out)@ == old(out)@ + line_bytes(line@, terminated),
{
    if !is_valid_utf8(line) {
        return;
    }
    let n = line.len();
    let keep = if terminated && n > 0 && line[n - 1] == 13u8 {
        n - 1
    } else {
        n
    };
    let part = slice_subrange(line, 0, keep);
    out.extend_from_slice(part);
    proof {
        assert(final(out)@ =~= old(out)@ + line_bytes(line@, terminated));
    }
}

/// Joins the lines of `src` into one byte string, dropping the line ends.
pub fn join(src: &[u8]) -> (r: Result<Vec<u8>, anyhow::Error>)
    ensures
        r matches Ok(v) && v@ == joined(src@),
{
    let mut out: Vec<u8> = Vec::new();
    let n = src.len();
    let mut start: usize = 0;
    let mut i: usize = 0;
    while i < n
        invariant
            start <= i <= n,
            n == src@.len(),
            out@ + join_from(src@, start as int, i as int) == joined(src@),
        decreases n - i,
    {
        if src[i] == 10u8 {
            let line = slice_subrange(src, start, i);
            let ghost out_before = out@;
            proof {
                assert(join_from(src@, start as int, i as int) == line_bytes(line@, true) + join_from(
                    src@,
                    i + 1,
                    i + 1,
                ));
            }
            append_line(&mut out, line, true);
            proof {
                let rest = join_from(src@, i + 1, i + 1);
                assert(out@ + rest =~= out_before + (line_bytes(line@, true) + rest));
            }
            start = i + 1;
        }
        i = i + 1;
    }
    let line = slice_subrange(src, start, n);
    append_line(&mut out, line, false);
    Ok(out)
}

/// The pattern of an annotation `@word`: whole word, case-insensitive.
pub open spec fn annotation_pattern_of(word: Seq<char>) -> Seq<char> {
    "@(\\b)(?i:"@ + word + ")(\\b)"@
}

/// Whether `pattern` is a valid regular expression matching somewhere in
/// `text`; `None` when it is not valid.
pub uninterp spec fn regex_match_of(pattern: Seq<char>, text: Seq<char>) -> Option<bool>;

/// Relies on regex's `Regex::new` and `Regex::is_match`.
#[verifier::external_body]
fn regex_match(pattern: &str, text: &str) -> (r: Option<bool>)
    ensures
        r == regex_match_of(pattern@, text@),
{
    regex::Regex::new(pattern).ok().map(|re| re.is_match(text))
}

/// The regular expression that finds the annotation `@word`.
pub fn annotation_pattern(word: &str) -> (r: String)
    ensures
        r@ == annotation_pattern_of(word@),
{
    let mut p = String::from_str("@(\\b)(?i:");
    p.append(word);
    p.append(")(\\b)");
    p
}

/// Whether `text` carries the annotation `@word`; `None` when `word` does not
/// make a valid pattern.
pub fn has_annotation(text: &str, word: &str) -> (r: Option<bool>)
    ensures
        r == regex_match_of(annotation_pattern_of(word@), text@),
{
    let p = annotation_pattern(word);
    regex_match(p.as_str(), text)
}

} // verus!
