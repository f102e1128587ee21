//! Content-disposition header construction.
//!
//! The download filename is caller-controlled, so it is escaped before being
//! embedded in the quoted-string of the `Content-Disposition` header value:
//! a double quote or backslash is backslash-escaped, and every control
//! character is replaced outright, so the header can neither be broken out of
//! nor carry an injected line.

use vstd::prelude::*;

verus! {

/// How one filename character is embedded in the quoted-string: `"` and `\`
/// are backslash-escaped, control characters (C0 and DEL) are replaced by an
/// underscore, and every other character stands for itself.
pub open spec fn escape_char(c: char) -> Seq<char> {
    if c == '"' {
        seq!['\\', '"']
    } else if c == '\\' {
        seq!['\\', '\\']
    } else if (c as u32) < 32 || (c as u32) == 127 {
        seq!['_']
    } else {
        seq![c]
    }
}

/// The escaped form of a whole filename.
pub open spec fn escaped(s: Seq<char>) -> Seq<char>
    decreases s.len(),
{
    if s.len() == 0 {
        Seq::<char>::empty()
    } else {
        escape_char(s[0]) + escaped(s.drop_first())
    }
}

/// The full header value: an attachment disposition whose quoted filename is
/// the escaped form of `name`.
pub open spec fn disposition_of(name: Seq<char>) -> Seq<char> {
    "attachment; filename=\""@ + escaped(name) + "\""@
}

/// Escaping consumes its input one character at a time: escaping one more
/// character appends that character's escape.
proof fn lemma_escaped_push(s: Seq<char>, i: int)
    requires
        0 <= i < s.len(),
    ensures
        escaped(s.take(i + 1)) == escaped(s.take(i)) + escape_char(s[i]),
    decreases i,
{
    let t = s.take(i + 1);
    if i == 0 {
        assert(t.drop_first() =~= Seq::<char>::empty());
        assert(escaped(s.take(0)) =~= Seq::<char>::empty());
        assert(escaped(t) =~= escape_char(s[0]) + escaped(t.drop_first()));
        assert(escaped(s.take(0)) + escape_char(s[0]) =~= escape_char(s[0]));
        assert(escape_char(s[0]) + Seq::<char>::empty() =~= escape_char(s[0]));
    } else {
        let u = s.drop_first();
        lemma_escaped_push(u, i - 1);
        assert(t.drop_first() =~= u.take(i));
        assert(s.take(i).drop_first() =~= u.take(i - 1));
        assert(u[i - 1] == s[i]);
        assert(escaped(t) == escape_char(s[0]) + escaped(u.take(i)));
        assert(escaped(u.take(i)) == escaped(u.take(i - 1)) + escape_char(s[i]));
        assert(escaped(s.take(i)) == escape_char(s[0]) + escaped(u.take(i - 1)));
        assert(escape_char(s[0]) + (escaped(u.take(i - 1)) + escape_char(s[i])) =~= (escape_char(
            s[0],
        ) + escaped(u.take(i - 1))) + escape_char(s[i]));
    }
}

/// Appends exactly one character to a string.
///
/// Relies on `String::push`: it appends the given character and changes
/// nothing else.
#[verifier::external_body]
fn push_char(s: &mut String, c: char)
    ensures
        final(s)@ == old(s)@ + seq![c],
{
    s.push(c)
}

/// Builds the `Content-Disposition` header value for a download offered under
/// `name`. The result is exactly the attachment disposition with the escaped,
/// quoted filename.
pub fn content_disposition_value(name: &str) -> (r: String)
    ensures
        r@ == disposition_of(name@),
{
    let mut out: String = "attachment; filename=\"".to_owned();
    let n = name.unicode_len();
    let mut i: usize = 0;
    assert(name@.take(0) =~= Seq::<char>::empty());
    while i < n
        invariant
            i <= n,
            n == name@.len(),
            out@ == "attachment; filename=\""@ + escaped(name@.take(i as int)),
        decreases n - i,
    {
        let c = name.get_char(i);
        proof {
            lemma_escaped_push(name@, i as int);
        }
        if c == '"' {
            out.append("\\\"");
            proof {
                reveal_strlit("\\\"");
                assert("\\\""@ =~= escape_char(c));
            }
        } else if c == '\\' {
            out.append("\\\\");
            proof {
                reveal_strlit("\\\\");
                assert("\\\\"@ =~= escape_char(c));
            }
        } else if (c as u32) < 32 || (c as u32) == 127 {
            out.append("_");
            proof {
                reveal_strlit("_");
                assert("_"@ =~= escape_char(c));
            }
        } else {
            push_char(&mut out, c);
            proof {
                assert(seq![c] =~= escape_char(c));
            }
        }
        proof {
            assert(out@ =~= "attachment; filename=\""@ + escaped(name@.take(i + 1)));
        }
        i += 1;
    }
    out.append("\"");
    proof {
        assert(name@.take(n as int) =~= name@);
        assert(out@ =~= disposition_of(name@));
    }
    out
}

/// A character is safe to place in a header value when it is not a C0 control
/// character and not DEL: such a value cannot split the header or smuggle a
/// further line into the response.
pub open spec fn header_safe_char(c: char) -> bool {
    (c as u32) >= 32 && (c as u32) != 127
}

/// Every character an escape produces is header-safe.
proof fn lemma_escape_char_safe(c: char)
    ensures
        forall|i: int| 0 <= i < escape_char(c).len() ==> header_safe_char(#[trigger] escape_char(c)[i]),
{
}

/// The escaped form of any filename contains no control character.
proof fn lemma_escaped_safe(s: Seq<char>)
    ensures
        forall|i: int| 0 <= i < escaped(s).len() ==> header_safe_char(#[trigger] escaped(s)[i]),
    decreases s.len(),
{
    if s.len() > 0 {
        lemma_escape_char_safe(s[0]);
        lemma_escaped_safe(s.drop_first());
        assert forall|i: int| 0 <= i < escaped(s).len() implies header_safe_char(
            #[trigger] escaped(s)[i],
        ) by {
            let head = escape_char(s[0]);
            if i < head.len() {
                assert(escaped(s)[i] == head[i]);
            } else {
                assert(escaped(s)[i] == escaped(s.drop_first())[i - head.len()]);
            }
        }
    }
}

/// Within the escaped filename, every double quote is immediately preceded by
/// a backslash: a hostile name cannot close the quoted-string early and
/// smuggle further directives into the header value.
pub proof fn lemma_escaped_quotes_are_escaped(s: Seq<char>)
    ensures
        forall|i: int|
            0 <= i < escaped(s).len() && #[trigger] escaped(s)[i] == '"' ==> i > 0 && escaped(s)[i
                - 1] == '\\',
    decreases s.len(),
{
    if s.len() > 0 {
        let head = escape_char(s[0]);
        let tail = escaped(s.drop_first());
        lemma_escaped_quotes_are_escaped(s.drop_first());
        assert forall|i: int|
            0 <= i < escaped(s).len() && #[trigger] escaped(s)[i] == '"' implies i > 0 && escaped(
            s,
        )[i - 1] == '\\' by {
            if i < head.len() {
                assert(escaped(s)[i] == head[i]);
                if head[i] == '"' {
                    assert(s[0] == '"');
                    assert(i == 1);
                    assert(escaped(s)[0] == '\\');
                }
            } else {
                let j = i - head.len();
                assert(escaped(s)[i] == tail[j]);
                assert(j > 0 && tail[j - 1] == '\\');
                assert(escaped(s)[i - 1] == tail[j - 1]);
            }
        }
    }
}

/// However hostile the filename — a double quote, a backslash, a newline, a
/// carriage return — the header value built from it contains no control
/// character, so it cannot end the header early or inject another one.
pub proof fn lemma_disposition_header_safe(name: Seq<char>)
    ensures
        forall|i: int| 0 <= i < disposition_of(name).len() ==> header_safe_char(
            #[trigger] disposition_of(name)[i],
        ),
{
    let prefix = "attachment; filename=\""@;
    let suffix = "\""@;
    reveal_strlit("attachment; filename=\"");
    reveal_strlit("\"");
    lemma_escaped_safe(name);
    assert forall|i: int| 0 <= i < disposition_of(name).len() implies header_safe_char(
        #[trigger] disposition_of(name)[i],
    ) by {
        let d = disposition_of(name);
        if i < prefix.len() {
            assert(d[i] == prefix[i]);
            assert(header_safe_char(prefix[i]));
        } else if i < prefix.len() + escaped(name).len() {
            assert(d[i] == escaped(name)[i - prefix.len()]);
        } else {
            assert(d[i] == suffix[i - prefix.len() - escaped(name).len()]);
            assert(header_safe_char(suffix[0]));
        }
    }
}

} // verus!
