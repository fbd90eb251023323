//! Names of directory entries.
use vstd::prelude::*;

verus! {

/// The most bytes that a name may hold.
pub const NAME_MAX_LEN: usize = 255;

/// The number of bytes of the UTF-8 encoding of a sequence of characters.
pub open spec fn utf8_len(s: Seq<char>) -> nat {
    vstd::utf8::encode_utf8(s).len()
}

/// A character takes at least one byte in UTF-8.
pub proof fn lemma_utf8_len_bound(s: Seq<char>)
    ensures
        utf8_len(s) >= s.len(),
    decreases s.len(),
{
    if s.len() > 0 {
        lemma_utf8_len_bound(s.drop_first());
    }
}

/// A character takes at most four bytes in UTF-8.
pub proof fn lemma_utf8_len_upper(s: Seq<char>)
    ensures
        utf8_len(s) <= 4 * s.len(),
    decreases s.len(),
{
    if s.len() > 0 {
        lemma_utf8_len_upper(s.drop_first());
        assert(vstd::utf8::encode_scalar(s[0] as u32).len() <= 4);
    }
}

/// The UTF-8 encoding of a concatenation is the concatenation of the
/// encodings.
pub proof fn lemma_utf8_concat(a: Seq<char>, b: Seq<char>)
    ensures
        vstd::utf8::encode_utf8(a + b) == vstd::utf8::encode_utf8(a) + vstd::utf8::encode_utf8(b),
        utf8_len(a + b) == utf8_len(a) + utf8_len(b),
    decreases a.len(),
{
    if a.len() > 0 {
        lemma_utf8_concat(a.drop_first(), b);
        assert((a + b).drop_first() =~= a.drop_first() + b);
        assert((a + b)[0] == a[0]);
    } else {
        assert(a + b =~= b);
    }
}

/// Why a name is invalid.
#[derive(Clone, Copy, PartialEq, Eq, Structural, Debug, Hash)]
pub enum InvalidName {
    /// The name holds a null byte or a forward slash.
    InvalidChar,
    /// The name is not valid UTF-8.
    NotUTF8,
    /// The name is longer than 255 bytes.
    TooLong,
    /// The name is empty.
    Empty,
}

/// The outcome of validating the characters `s` as a name.
pub open spec fn spec_validate_name(s: Seq<char>) -> Result<(), InvalidName> {
    if s.len() == 0 {
        Err(InvalidName::Empty)
    } else if utf8_len(s) > NAME_MAX_LEN {
        Err(InvalidName::TooLong)
    } else if s.contains('\0') || s.contains('/') {
        Err(InvalidName::InvalidChar)
    } else {
        Ok(())
    }
}

/// A valid name: not empty, at most 255 bytes long, without a null byte nor
/// a forward slash.
#[derive(Debug, Hash)]
pub struct Name(String);

impl View for Name {
    type V = Seq<char>;

    closed spec fn view(&self) -> Seq<char> {
        self.0@
    }
}

impl Clone for Name {
    fn clone(&self) -> (r: Self)
        ensures
            r@ == self@,
    {
        proof {
            use_type_invariant(self);
        }
        Name(self.0.clone())
    }
}

/// Whether the character `c` occurs in the first `i` characters of `s`.
pub open spec fn occurs_before(s: Seq<char>, i: int, c: char) -> bool {
    exists|j: int| 0 <= j < i && s[j] == c
}

impl Name {
    /// The maximum length of a name, in bytes.
    pub const MAX_LEN: usize = 255;

    /// Every name is valid.
    #[verifier::type_invariant]
    spec fn valid_name(self) -> bool {
        spec_validate_name(self.0@) is Ok
    }

    /// Every name is valid.
    pub fn check_valid(&self)
        ensures
            spec_validate_name(self@) is Ok,
    {
        proof {
            use_type_invariant(self);
        }
    }

    /// Creates a name from a string, if the string is a valid name.
    pub fn new(name: String) -> (r: Result<Self, InvalidName>)
        ensures
            match r {
                Ok(n) => n@ == name@ && spec_validate_name(name@) is Ok,
                Err(e) => spec_validate_name(name@) == Err::<(), InvalidName>(e),
            },
    {
        match Self::validate(name.as_str()) {
            Ok(()) => Ok(Name(name)),
            Err(e) => Err(e),
        }
    }

    /// Validates a name: it must not be empty, must be at most 255 bytes
    /// long, and must hold neither a null byte nor a forward slash.
    pub fn validate(name: &str) -> (r: Result<(), InvalidName>)
        ensures
            r == spec_validate_name(name@),
    {
        if name.is_empty() {
            return Err(InvalidName::Empty);
        }
        if name.as_bytes().len() > NAME_MAX_LEN {
            return Err(InvalidName::TooLong);
        }
        let mut chars = name.chars();
        let mut found = false;
        let ghost s = name@;
        let mut i: usize = 0;
        assert(s.skip(0) =~= s);
        proof {
            lemma_utf8_len_bound(s);
        }
        loop
            invariant
                s == name@,
                vstd::std_specs::iter::IteratorSpec::obeys_prophetic_iter_laws(&chars),
                vstd::std_specs::iter::IteratorSpec::remaining(&chars) == s.skip(i as int),
                i <= s.len(),
                found == (occurs_before(s, i as int, '\0') || occurs_before(s, i as int, '/')),
                s.len() <= NAME_MAX_LEN,
            ensures
                i == s.len(),
                found == (occurs_before(s, i as int, '\0') || occurs_before(s, i as int, '/')),
            decreases s.len() - i,
        {
            match chars.next() {
                None => {
                    assert(s.skip(i as int).len() == 0);
                    break;
                },
                Some(c) => {
                    assert(s.skip(i as int)[0] == s[i as int]);
                    assert(s.skip(i as int).drop_first() =~= s.skip(i + 1));
                    if c == '\0' || c == '/' {
                        found = true;
                    }
                    proof {
                        assert forall|ch: char| occurs_before(s, i + 1, ch) == (occurs_before(s, i as int, ch) || s[i as int] == ch) by {
                            if occurs_before(s, i + 1, ch) {
                                let j = choose|j: int| 0 <= j < i + 1 && s[j] == ch;
                                if j < i {
                                    assert(occurs_before(s, i as int, ch));
                                }
                            }
                            if s[i as int] == ch {
                                assert(0 <= i < i + 1 && s[i as int] == ch);
                            }
                        }
                    }
                    i = i + 1;
                },
            }
        }
        proof {
            assert(s.contains('\0') == occurs_before(s, s.len() as int, '\0'));
            assert(s.contains('/') == occurs_before(s, s.len() as int, '/'));
        }
        if found {
            return Err(InvalidName::InvalidChar);
        }
        Ok(())
    }

    /// Returns the name as a string.
    pub fn as_str(&self) -> (r: &str)
        ensures
            r@ == self@,
    {
        self.0.as_str()
    }

    /// Returns `true` if the name is made of the characters of `expected`.
    fn is_chars(&self, expected: &str) -> (r: bool)
        ensures
            r == (self@ == expected@),
    {
        let a = self.0.as_str();
        let mut x = a.chars();
        let mut y = expected.chars();
        let ghost sa = a@;
        let ghost sb = expected@;
        let mut i: usize = 0;
        proof {
            use_type_invariant(self);
        }
        assert(sa.skip(0) =~= sa);
        assert(sb.skip(0) =~= sb);
        proof {
            lemma_utf8_len_bound(sa);
        }
        loop
            invariant
                sa == self@,
                sb == expected@,
                vstd::std_specs::iter::IteratorSpec::obeys_prophetic_iter_laws(&x),
                vstd::std_specs::iter::IteratorSpec::obeys_prophetic_iter_laws(&y),
                vstd::std_specs::iter::IteratorSpec::remaining(&x) == sa.skip(i as int),
                vstd::std_specs::iter::IteratorSpec::remaining(&y) == sb.skip(i as int),
                i <= sa.len(),
                i <= sb.len(),
                sa.len() <= NAME_MAX_LEN,
                sa.take(i as int) == sb.take(i as int),
            decreases sa.len() - i,
        {
            let cx = x.next();
            let cy = y.next();
            match (cx, cy) {
                (None, None) => {
                    assert(sa.skip(i as int).len() == 0);
                    assert(sb.skip(i as int).len() == 0);
                    assert(sa =~= sa.take(i as int));
                    assert(sb =~= sb.take(i as int));
                    return true;
                },
                (Some(p), Some(q)) => {
                    assert(sa.skip(i as int)[0] == sa[i as int]);
                    assert(sb.skip(i as int)[0] == sb[i as int]);
                    if p != q {
                        assert(sa[i as int] != sb[i as int]);
                        return false;
                    }
                    assert(sa.skip(i as int).drop_first() =~= sa.skip(i + 1));
                    assert(sb.skip(i as int).drop_first() =~= sb.skip(i + 1));
                    assert(sa.take(i + 1) =~= sa.take(i as int).push(p));
                    assert(sb.take(i + 1) =~= sb.take(i as int).push(q));
                    i = i + 1;
                },
                (None, Some(_)) => {
                    assert(sa.skip(i as int).len() == 0);
                    assert(sb.skip(i as int).len() > 0);
                    return false;
                },
                (Some(_), None) => {
                    assert(sa.skip(i as int).len() > 0);
                    assert(sb.skip(i as int).len() == 0);
                    return false;
                },
            }
        }
    }

    /// Returns `true` if the name is `.`, the current directory.
    pub fn is_dot(&self) -> (r: bool)
        ensures
            r == (self@ == seq!['.']),
    {
        proof {
            reveal_strlit(".");
        }
        let r = self.is_chars(".");
        proof {
            assert(".".view() =~= seq!['.']);
        }
        r
    }

    /// Returns `true` if the name is `..`, the parent directory.
    pub fn is_dot_dot(&self) -> (r: bool)
        ensures
            r == (self@ == seq!['.', '.']),
    {
        proof {
            reveal_strlit("..");
        }
        let r = self.is_chars("..");
        proof {
            assert("..".view() =~= seq!['.', '.']);
        }
        r
    }

    /// Returns `true` if both names are made of the same characters.
    pub fn same_as(&self, other: &Name) -> (r: bool)
        ensures
            r == (self@ == other@),
    {
        self.0 == other.0
    }
}

} // verus!
