//! Paths: sequences of names, absolute or relative.
use vstd::prelude::*;
use super::name::{InvalidName, Name, spec_validate_name, utf8_len};

verus! {

/// The most bytes that a path may hold.
pub const PATH_MAX_LEN: usize = 4096;

/// Why a path is invalid.
#[derive(Clone, Copy, PartialEq, Eq, Structural, Debug, Hash)]
pub enum InvalidPath {
    /// The path holds a null byte.
    InvalidChar,
    /// The path is not valid UTF-8.
    NotUTF8,
    /// A component of the path is longer than 255 bytes.
    NameTooLong,
    /// The path is longer than 4096 bytes.
    TooLong,
    /// The path is empty.
    Empty,
}

/// The path error that a name error becomes.
pub open spec fn spec_path_error(e: InvalidName) -> InvalidPath {
    match e {
        InvalidName::InvalidChar => InvalidPath::InvalidChar,
        InvalidName::TooLong => InvalidPath::NameTooLong,
        InvalidName::NotUTF8 => InvalidPath::NotUTF8,
        InvalidName::Empty => InvalidPath::Empty,
    }
}

impl From<InvalidName> for InvalidPath {
    fn from(e: InvalidName) -> (r: Self) {
        match e {
            InvalidName::InvalidChar => InvalidPath::InvalidChar,
            InvalidName::TooLong => InvalidPath::NameTooLong,
            InvalidName::NotUTF8 => InvalidPath::NotUTF8,
            InvalidName::Empty => InvalidPath::Empty,
        }
    }
}

impl vstd::std_specs::convert::FromSpecImpl<InvalidName> for InvalidPath {
    open spec fn obeys_from_spec() -> bool {
        true
    }

    open spec fn from_spec(e: InvalidName) -> Self {
        spec_path_error(e)
    }
}

/// Splitting the characters `s` on forward slashes, left to right: the
/// components already complete, and the component being read.
pub open spec fn scan(s: Seq<char>) -> (Seq<Seq<char>>, Seq<char>)
    decreases s.len(),
{
    if s.len() == 0 {
        (Seq::empty(), Seq::empty())
    } else {
        let (done, cur) = scan(s.drop_last());
        if s.last() == '/' {
            if cur.len() > 0 {
                (done.push(cur), Seq::empty())
            } else {
                (done, Seq::empty())
            }
        } else {
            (done, cur.push(s.last()))
        }
    }
}

/// The components of the path `s`: its non-empty parts between forward
/// slashes.
pub open spec fn split_path(s: Seq<char>) -> Seq<Seq<char>> {
    let (done, cur) = scan(s);
    if cur.len() > 0 {
        done.push(cur)
    } else {
        done
    }
}

/// The outcome of validating the characters `s` as a path.
pub open spec fn spec_validate_path(s: Seq<char>) -> Result<(), InvalidPath> {
    if s.len() == 0 {
        Err(InvalidPath::Empty)
    } else if utf8_len(s) > PATH_MAX_LEN {
        Err(InvalidPath::TooLong)
    } else if s.contains('\0') {
        Err(InvalidPath::InvalidChar)
    } else {
        Ok(())
    }
}

/// The index of the first component of `comps` that is not a valid name,
/// if any.
pub open spec fn first_invalid(comps: Seq<Seq<char>>) -> Option<int> {
    if exists|k: int| 0 <= k < comps.len() && spec_validate_name(comps[k]) is Err {
        Some(
            choose|k: int|
                0 <= k < comps.len() && spec_validate_name(comps[k]) is Err && forall|j: int|
                    0 <= j < k ==> spec_validate_name(#[trigger] comps[j]) is Ok,
        )
    } else {
        None
    }
}

/// The outcome of parsing the characters `s` as a path: its components and
/// whether it is absolute.
pub open spec fn spec_parse_path(s: Seq<char>) -> Result<(Seq<Seq<char>>, bool), InvalidPath> {
    match spec_validate_path(s) {
        Err(e) => Err(e),
        Ok(()) => match first_invalid(split_path(s)) {
            Some(k) => Err(spec_path_error(spec_validate_name(split_path(s)[k])->Err_0)),
            None => Ok((split_path(s), s[0] == '/')),
        },
    }
}

/// Appends a character to a string.
#[verifier::external_body]
fn push_char(s: &mut String, c: char)
    ensures
        final(s)@ == old(s)@.push(c),
{
    s.push(c);
}

/// A path: a sequence of valid names, absolute when it starts at the root.
#[derive(Debug, Hash)]
pub struct Path {
    pub components: Vec<Name>,
    pub absolute: bool,
}

/// Whether `a` is a prefix of `b`.
pub open spec fn is_prefix<T>(a: Seq<T>, b: Seq<T>) -> bool {
    a.len() <= b.len() && b.take(a.len() as int) == a
}

/// The components complete after the first `i` characters are a prefix of
/// those complete after the first `j`.
proof fn lemma_scan_prefix(s: Seq<char>, i: int, j: int)
    requires
        0 <= i <= j <= s.len(),
    ensures
        is_prefix(scan(s.take(i)).0, scan(s.take(j)).0),
    decreases j - i,
{
    if i < j {
        lemma_scan_prefix(s, i, j - 1);
        assert(s.take(j).drop_last() =~= s.take(j - 1));
        let a = scan(s.take(i)).0;
        let b = scan(s.take(j - 1)).0;
        let c = scan(s.take(j)).0;
        assert(c == b || c == b.push(scan(s.take(j - 1)).1));
        assert(c.take(a.len() as int) =~= a) by {
            assert(b.take(a.len() as int) =~= a);
            assert forall|k: int| 0 <= k < a.len() implies c[k] == a[k] by {
                assert(c[k] == b[k]);
            }
        }
    } else {
        assert(scan(s.take(i)).0.take(scan(s.take(i)).0.len() as int) =~= scan(s.take(i)).0);
    }
}

impl Path {
    /// The maximum length of a path, in bytes.
    pub const MAX_LEN: usize = 4096;

    /// The components of the path, as characters.
    pub open spec fn spec_components(self) -> Seq<Seq<char>> {
        self.components@.map_values(|n: Name| n@)
    }

    /// Creates the root path: absolute, without components.
    pub fn root() -> (r: Self)
        ensures
            r.spec_components() == Seq::<Seq<char>>::empty(),
            r.absolute,
    {
        let r = Self { components: Vec::new(), absolute: true };
        assert(r.spec_components() =~= Seq::<Seq<char>>::empty());
        r
    }

    /// Validates a path: it must not be empty, must be at most 4096 bytes
    /// long and must not hold a null byte.
    pub fn validate(path: &str) -> (r: Result<(), InvalidPath>)
        ensures
            r == spec_validate_path(path@),
    {
        if path.is_empty() {
            return Err(InvalidPath::Empty);
        }
        if path.as_bytes().len() > PATH_MAX_LEN {
            return Err(InvalidPath::TooLong);
        }
        let ghost s = path@;
        let mut chars = path.chars();
        let mut found = false;
        let mut i: usize = 0;
        assert(s.skip(0) =~= s);
        proof {
            super::name::lemma_utf8_len_bound(s);
        }
        loop
            invariant
                s == path@,
                vstd::std_specs::iter::IteratorSpec::obeys_prophetic_iter_laws(&chars),
                vstd::std_specs::iter::IteratorSpec::remaining(&chars) == s.skip(i as int),
                i <= s.len(),
                s.len() <= PATH_MAX_LEN,
                found == (exists|j: int| 0 <= j < i && s[j] == '\0'),
            ensures
                i == s.len(),
                found == (exists|j: int| 0 <= j < i && s[j] == '\0'),
            decreases s.len() - i,
        {
            match chars.next() {
                None => {
                    assert(s.skip(i as int).len() == 0);
                    break;
                },
                Some(c) => {
                    assert(s.skip(i as int)[0] == s[i as int]);
                    assert(s.skip(i as int).drop_first() =~= s.skip(i + 1));
                    proof {
                        if found {
                            let j = choose|j: int| 0 <= j < i && s[j] == '\0';
                            assert(0 <= j < i + 1 && s[j] == '\0');
                        }
                        if c == '\0' {
                            assert(0 <= i < i + 1 && s[i as int] == '\0');
                        }
                        if exists|j: int| 0 <= j < i + 1 && s[j] == '\0' {
                            let j = choose|j: int| 0 <= j < i + 1 && s[j] == '\0';
                            if j < i {
                                assert(exists|j: int| 0 <= j < i && s[j] == '\0');
                            }
                        }
                    }
                    if c == '\0' {
                        found = true;
                    }
                    i = i + 1;
                },
            }
        }
        if found {
            return Err(InvalidPath::InvalidChar);
        }
        Ok(())
    }

    /// Creates a path from a string: it is absolute if it starts with a
    /// forward slash, and its components are its non-empty parts between
    /// forward slashes, which must be valid names.
    pub fn new(path: &str) -> (r: Result<Self, InvalidPath>)
        ensures
            match r {
                Ok(p) => spec_parse_path(path@) == Ok::<(Seq<Seq<char>>, bool), InvalidPath>(
                    (p.spec_components(), p.absolute),
                ),
                Err(e) => spec_parse_path(path@) == Err::<(Seq<Seq<char>>, bool), InvalidPath>(e),
            },
    {
        match Self::validate(path) {
            Ok(()) => {},
            Err(e) => {
                return Err(e);
            },
        }
        let ghost s = path@;
        proof {
            super::name::lemma_utf8_len_bound(s);
        }
        let mut first = path.chars();
        let absolute = match first.next() {
            Some(c) => c == '/',
            None => false,
        };
        assert(absolute == (s[0] == '/'));
        let mut chars = path.chars();
        let mut components: Vec<Name> = Vec::new();
        let mut current = String::new();
        let mut i: usize = 0;
        assert(s.skip(0) =~= s);
        assert(s.take(0) =~= Seq::<char>::empty());
        loop
            invariant
                s == path@,
                vstd::std_specs::iter::IteratorSpec::obeys_prophetic_iter_laws(&chars),
                vstd::std_specs::iter::IteratorSpec::remaining(&chars) == s.skip(i as int),
                i <= s.len(),
                s.len() <= PATH_MAX_LEN,
                scan(s.take(i as int)).0 == components@.map_values(|n: Name| n@),
                scan(s.take(i as int)).1 == current@,
                forall|k: int| 0 <= k < components@.len() ==> spec_validate_name(#[trigger] components@[k]@) is Ok,
                spec_validate_path(s) is Ok,
            ensures
                i == s.len(),
                scan(s).0 == components@.map_values(|n: Name| n@),
                scan(s).1 == current@,
                forall|k: int| 0 <= k < components@.len() ==> spec_validate_name(#[trigger] components@[k]@) is Ok,
            decreases s.len() - i,
        {
            match chars.next() {
                None => {
                    assert(s.skip(i as int).len() == 0);
                    assert(s.take(i as int) =~= s);
                    break;
                },
                Some(c) => {
                    assert(s.skip(i as int)[0] == s[i as int]);
                    assert(s.skip(i as int).drop_first() =~= s.skip(i + 1));
                    assert(s.take(i + 1).drop_last() =~= s.take(i as int));
                    assert(s.take(i + 1).last() == c);
                    if c == '/' {
                        if !current.as_str().is_empty() {
                            let mut taken = String::new();
                            std::mem::swap(&mut taken, &mut current);
                            proof {
                                assert(taken@.len() > 0) by {
                                    if taken@.len() == 0 {
                                        assert(vstd::utf8::encode_utf8(taken@) =~= Seq::<u8>::empty());
                                    }
                                }
                            }
                            let ghost tv = taken@;
                            match Name::new(taken) {
                                Ok(name) => {
                                    let ghost before = components@;
                                    components.push(name);
                                    assert(components@.map_values(|n: Name| n@) =~= before.map_values(|n: Name| n@).push(tv));
                                },
                                Err(e) => {
                                    proof {
                                        let done = components@.map_values(|n: Name| n@);
                                        let pushed = scan(s.take(i + 1)).0;
                                        assert(pushed == done.push(tv));
                                        lemma_scan_prefix(s, i + 1, s.len() as int);
                                        assert(s.take(s.len() as int) =~= s);
                                        let all = split_path(s);
                                        assert(all.take(scan(s).0.len() as int) =~= scan(s).0);
                                        assert(is_prefix(scan(s).0, all));
                                        assert(all[done.len() as int] == tv) by {
                                            assert(scan(s).0.take(pushed.len() as int) == pushed);
                                            assert(scan(s).0[done.len() as int] == pushed[done.len() as int]);
                                            if scan(s).1.len() > 0 {
                                                assert(all[done.len() as int] == scan(s).0[done.len() as int]);
                                            }
                                        }
                                        assert forall|j: int| 0 <= j < done.len() implies spec_validate_name(#[trigger] all[j]) is Ok by {
                                            assert(scan(s).0.take(pushed.len() as int) == pushed);
                                            assert(scan(s).0[j] == pushed[j]);
                                            assert(pushed[j] == done[j]);
                                            assert(done[j] == components@[j]@);
                                            if scan(s).1.len() > 0 {
                                                assert(all[j] == scan(s).0[j]);
                                            }
                                        }
                                        self::lemma_first_invalid(all, done.len() as int);
                                    }
                                    return Err(InvalidPath::from(e));
                                },
                            }
                        }
                    } else {
                        push_char(&mut current, c);
                    }
                    i = i + 1;
                },
            }
        }
        if !current.as_str().is_empty() {
            let ghost tv = current@;
            match Name::new(current) {
                Ok(name) => {
                    let ghost before = components@;
                    components.push(name);
                    assert(components@.map_values(|n: Name| n@) =~= before.map_values(|n: Name| n@).push(tv));
                },
                Err(e) => {
                    proof {
                        let all = split_path(s);
                        let done = scan(s).0;
                        assert(all == done.push(tv));
                        assert forall|j: int| 0 <= j < done.len() implies spec_validate_name(#[trigger] all[j]) is Ok by {
                            assert(done[j] == components@[j]@);
                        }
                        lemma_first_invalid(all, done.len() as int);
                    }
                    return Err(InvalidPath::from(e));
                },
            }
        } else {
            proof {
                super::name::lemma_utf8_len_bound(current@);
            }
        }
        let p = Path { components, absolute };
        proof {
            let all = split_path(s);
            assert(all == p.spec_components());
            assert(first_invalid(all) is None) by {
                if exists|k: int| 0 <= k < all.len() && spec_validate_name(all[k]) is Err {
                    let k = choose|k: int| 0 <= k < all.len() && spec_validate_name(all[k]) is Err;
                    assert(all[k] == p.components@[k]@);
                }
            }
        }
        Ok(p)
    }

    /// Appends a component to the path.
    pub fn push(&mut self, name: Name)
        ensures
            final(self).spec_components() == old(self).spec_components().push(name@),
            final(self).absolute == old(self).absolute,
    {
        self.components.push(name);
        assert(self.spec_components() =~= old(self).spec_components().push(name@));
    }

    /// Removes the last component of the path and returns it.
    pub fn pop(&mut self) -> (r: Option<Name>)
        ensures
            final(self).absolute == old(self).absolute,
            old(self).spec_components().len() == 0 ==> r is None && final(self).spec_components()
                == old(self).spec_components(),
            old(self).spec_components().len() > 0 ==> r is Some && r->0@ == old(
                self,
            ).spec_components().last() && final(self).spec_components() == old(
                self,
            ).spec_components().drop_last(),
    {
        let r = self.components.pop();
        assert(self.spec_components() =~= if old(self).spec_components().len() > 0 {
            old(self).spec_components().drop_last()
        } else {
            old(self).spec_components()
        });
        r
    }

    /// Returns `true` if the path is absolute.
    pub fn is_absolute(&self) -> (r: bool)
        ensures
            r == self.absolute,
    {
        self.absolute
    }

    /// Returns `true` if the path is relative.
    pub fn is_relative(&self) -> (r: bool)
        ensures
            r == !self.absolute,
    {
        !self.absolute
    }

    /// Returns the number of components of the path.
    pub fn count(&self) -> (r: usize)
        ensures
            r == self.spec_components().len(),
    {
        self.components.len()
    }

    /// Returns the components of the path.
    pub fn iter(&self) -> (r: &[Name])
        ensures
            r@ == self.components@,
    {
        self.components.as_slice()
    }
}

/// The components joined by forward slashes.
pub open spec fn join(comps: Seq<Seq<char>>) -> Seq<char>
    decreases comps.len(),
{
    if comps.len() == 0 {
        Seq::empty()
    } else if comps.len() == 1 {
        comps[0]
    } else {
        join(comps.drop_last()) + seq!['/'] + comps.last()
    }
}

/// How a path is written: a forward slash first when it is absolute, then
/// its components joined by forward slashes.
pub open spec fn spec_display(absolute: bool, comps: Seq<Seq<char>>) -> Seq<char> {
    (if absolute {
        seq!['/']
    } else {
        Seq::empty()
    }) + join(comps)
}

impl Path {
    /// Writes the path as a string.
    pub fn to_string(&self) -> (r: String)
        ensures
            r@ == spec_display(self.absolute, self.spec_components()),
    {
        let mut s = String::new();
        proof {
            reveal_strlit("/");
        }
        if self.absolute {
            s.append("/");
        }
        let ghost prefix = s@;
        assert(prefix == (if self.absolute { seq!['/'] } else { Seq::<char>::empty() }));
        let mut i: usize = 0;
        assert(self.spec_components().take(0) =~= Seq::<Seq<char>>::empty());
        assert(s@ =~= prefix + join(self.spec_components().take(0)));
        while i < self.components.len()
            invariant
                i <= self.components@.len(),
                prefix == (if self.absolute { seq!['/'] } else { Seq::<char>::empty() }),
                s@ == prefix + join(self.spec_components().take(i as int)),
                "/"@ == seq!['/'],
            decreases self.components@.len() - i,
        {
            let ghost comps = self.spec_components();
            let ghost before = s@;
            if i != 0 {
                s.append("/");
            }
            s.append(self.components[i].as_str());
            proof {
                let t = comps.take(i + 1);
                assert(t.drop_last() =~= comps.take(i as int));
                assert(t.last() == self.components@[i as int]@);
                if i == 0 {
                    assert(join(t) == t[0]);
                    assert(s@ =~= prefix + join(t));
                } else {
                    assert(s@ =~= prefix + join(t));
                }
            }
            i = i + 1;
        }
        assert(self.spec_components().take(i as int) =~= self.spec_components());
        s
    }
}

impl From<Vec<Name>> for Path {
    fn from(components: Vec<Name>) -> (r: Self) {
        Path { components, absolute: false }
    }
}

impl vstd::std_specs::convert::FromSpecImpl<Vec<Name>> for Path {
    open spec fn obeys_from_spec() -> bool {
        true
    }

    open spec fn from_spec(components: Vec<Name>) -> Self {
        Path { components, absolute: false }
    }
}

impl Path {
    /// The relative path made of the components of `components` from the
    /// one at `start` on.
    pub fn from_components(components: &[Name], start: usize) -> (r: Self)
        requires
            start <= components@.len(),
        ensures
            r.spec_components() == components@.map_values(|n: Name| n@).skip(start as int),
            !r.absolute,
    {
        let mut v: Vec<Name> = Vec::new();
        let mut i = start;
        while i < components.len()
            invariant
                start <= i <= components@.len(),
                v@.len() == i - start,
                forall|k: int| 0 <= k < v@.len() ==> #[trigger] v@[k]@ == components@[start + k]@,
            decreases components@.len() - i,
        {
            v.push(components[i].clone());
            i = i + 1;
        }
        let r = Path::from(v);
        assert(r.spec_components() =~= components@.map_values(|n: Name| n@).skip(start as int));
        r
    }
}

/// Popping the component that was just pushed gives it back and leaves the
/// path as it was.
pub proof fn law_pop_undoes_push(comps: Seq<Seq<char>>, name: Seq<char>)
    ensures
        comps.push(name).len() > 0,
        comps.push(name).last() == name,
        comps.push(name).drop_last() == comps,
{
    assert(comps.push(name).drop_last() =~= comps);
}

/// Scanning characters without a slash only extends the current component.
pub proof fn lemma_scan_plain(s: Seq<char>, chars: Seq<char>)
    requires
        !chars.contains('/'),
    ensures
        scan(s + chars) == (scan(s).0, scan(s).1 + chars),
    decreases chars.len(),
{
    if chars.len() == 0 {
        assert(s + chars =~= s);
        assert(scan(s).1 + chars =~= scan(s).1);
    } else {
        let init = chars.drop_last();
        assert(!init.contains('/')) by {
            if init.contains('/') {
                let k = choose|k: int| 0 <= k < init.len() && init[k] == '/';
                assert(chars[k] == '/');
            }
        }
        lemma_scan_plain(s, init);
        assert((s + chars).drop_last() =~= s + init);
        assert((s + chars).last() == chars.last());
        assert(chars.last() != '/') by {
            assert(chars[chars.len() - 1] == chars.last());
        }
        assert(scan(s).1 + chars =~= (scan(s).1 + init).push(chars.last()));
    }
}

/// The components written one after the other, separated by slashes after
/// an optional leading slash, are scanned back as they were: all but the
/// last complete, the last one current.
proof fn lemma_scan_join(pre: Seq<char>, comps: Seq<Seq<char>>)
    requires
        pre == Seq::<char>::empty() || pre == seq!['/'],
        comps.len() > 0,
        forall|i: int| 0 <= i < comps.len() ==> spec_validate_name(#[trigger] comps[i]) is Ok,
    ensures
        scan(pre + join(comps)) == (comps.drop_last(), comps.last()),
    decreases comps.len(),
{
    assert(scan(pre) == (Seq::<Seq<char>>::empty(), Seq::<char>::empty())) by {
        assert(scan(Seq::<char>::empty()) == (Seq::<Seq<char>>::empty(), Seq::<char>::empty()));
        if pre.len() > 0 {
            assert(pre.drop_last() =~= Seq::<char>::empty());
            assert(pre.last() == '/');
        }
    }
    let last = comps.last();
    assert(spec_validate_name(comps[comps.len() - 1]) is Ok);
    assert(!last.contains('/'));
    if comps.len() == 1 {
        lemma_scan_plain(pre, last);
        assert(join(comps) == comps[0]);
        assert(Seq::<char>::empty() + last =~= last);
        assert(comps.drop_last() =~= Seq::<Seq<char>>::empty());
    } else {
        let prev = comps.drop_last();
        assert forall|i: int| 0 <= i < prev.len() implies spec_validate_name(#[trigger] prev[i]) is Ok by {
            assert(prev[i] == comps[i]);
        }
        lemma_scan_join(pre, prev);
        let head = pre + join(prev);
        let s = head.push('/');
        assert(s.drop_last() =~= head);
        assert(spec_validate_name(prev[prev.len() - 1]) is Ok);
        assert(prev.last().len() > 0);
        assert(scan(s) == (prev.drop_last().push(prev.last()), Seq::<char>::empty()));
        assert(prev.drop_last().push(prev.last()) =~= prev);
        lemma_scan_plain(s, last);
        assert(pre + join(comps) =~= s + last);
        assert(Seq::<char>::empty() + last =~= last);
    }
}

/// A string made of valid names, slashes and nothing else holds no null
/// character.
proof fn lemma_join_no_nul(comps: Seq<Seq<char>>)
    requires
        forall|i: int| 0 <= i < comps.len() ==> spec_validate_name(#[trigger] comps[i]) is Ok,
    ensures
        !join(comps).contains('\0'),
    decreases comps.len(),
{
    if comps.len() == 1 {
        assert(spec_validate_name(comps[0]) is Ok);
    } else if comps.len() > 1 {
        let prev = comps.drop_last();
        assert forall|i: int| 0 <= i < prev.len() implies spec_validate_name(#[trigger] prev[i]) is Ok by {
            assert(prev[i] == comps[i]);
        }
        lemma_join_no_nul(prev);
        assert(spec_validate_name(comps[comps.len() - 1]) is Ok);
        let j = join(comps);
        if j.contains('\0') {
            let k = choose|k: int| 0 <= k < j.len() && j[k] == '\0';
            let a = join(prev);
            if k < a.len() {
                assert(a[k] == '\0');
            } else if k > a.len() {
                assert(comps.last()[k - a.len() - 1] == '\0');
            }
        }
    }
}

/// Writing a path and parsing what was written gives the path back: the
/// same components, and absolute exactly when it was.
pub proof fn law_parse_display(absolute: bool, comps: Seq<Seq<char>>)
    requires
        forall|i: int| 0 <= i < comps.len() ==> spec_validate_name(#[trigger] comps[i]) is Ok,
        absolute || comps.len() > 0,
        utf8_len(spec_display(absolute, comps)) <= PATH_MAX_LEN,
    ensures
        spec_parse_path(spec_display(absolute, comps)) == Ok::<(Seq<Seq<char>>, bool), InvalidPath>(
            (comps, absolute),
        ),
{
    let pre = if absolute {
        seq!['/']
    } else {
        Seq::<char>::empty()
    };
    let s = spec_display(absolute, comps);
    assert(s == pre + join(comps));
    if comps.len() > 0 {
        lemma_scan_join(pre, comps);
        assert(spec_validate_name(comps.last()) is Ok) by {
            assert(spec_validate_name(comps[comps.len() - 1]) is Ok);
        }
        assert(comps.drop_last().push(comps.last()) =~= comps);
        assert(split_path(s) == comps);
        lemma_join_no_nul(comps);
        assert(!s.contains('\0')) by {
            if s.contains('\0') {
                let k = choose|k: int| 0 <= k < s.len() && s[k] == '\0';
                if absolute && k == 0 {
                } else {
                    assert(join(comps)[k - pre.len()] == '\0');
                }
            }
        }
        if !absolute {
            assert(spec_validate_name(comps[0]) is Ok);
            assert(join(comps).len() > 0 && join(comps)[0] == comps[0][0]) by {
                lemma_join_first(comps);
            }
            assert(s[0] == comps[0][0]);
            assert(!comps[0].contains('/'));
            assert(comps[0].len() > 0);
            assert(comps[0][0] != '/');
        }
    } else {
        assert(s =~= seq!['/']);
        assert(s.drop_last() =~= Seq::<char>::empty());
        assert(scan(Seq::<char>::empty()) == (Seq::<Seq<char>>::empty(), Seq::<char>::empty()));
        assert(s.last() == '/');
        assert(scan(s) == (Seq::<Seq<char>>::empty(), Seq::<char>::empty()));
        assert(split_path(s) =~= comps);
        assert(!s.contains('\0')) by {
            assert(s[0] == '/');
        }
    }
    assert(s.len() > 0);
    assert(first_invalid(comps) is None);
}

/// The joined components start with the first character of the first
/// component, when it has one.
proof fn lemma_join_first(comps: Seq<Seq<char>>)
    requires
        comps.len() > 0,
        comps[0].len() > 0,
    ensures
        join(comps).len() > 0,
        join(comps)[0] == comps[0][0],
    decreases comps.len(),
{
    if comps.len() > 1 {
        let prev = comps.drop_last();
        assert(prev[0] == comps[0]);
        lemma_join_first(prev);
    }
}

/// The component at `k` is the first invalid one when all before it are
/// valid.
proof fn lemma_first_invalid(comps: Seq<Seq<char>>, k: int)
    requires
        0 <= k < comps.len(),
        spec_validate_name(comps[k]) is Err,
        forall|j: int| 0 <= j < k ==> spec_validate_name(#[trigger] comps[j]) is Ok,
    ensures
        first_invalid(comps) == Some(k),
{
    let k2 = choose|k2: int|
        0 <= k2 < comps.len() && spec_validate_name(comps[k2]) is Err && forall|j: int|
            0 <= j < k2 ==> spec_validate_name(#[trigger] comps[j]) is Ok;
    assert(0 <= k < comps.len() && spec_validate_name(comps[k]) is Err && forall|j: int|
        0 <= j < k ==> spec_validate_name(#[trigger] comps[j]) is Ok);
    if k2 < k {
        assert(spec_validate_name(comps[k2]) is Ok);
    }
    if k < k2 {
        assert(spec_validate_name(comps[k]) is Ok);
    }
}

/// A path parses into the non-empty parts of its string between forward
/// slashes, in order, `.` and `..` included: each is a valid name, so none
/// is empty or holds a slash; the path is absolute when the string starts
/// with a slash.
pub proof fn law_components_are_parts(s: Seq<char>)
    requires
        spec_parse_path(s) is Ok,
    ensures
        spec_parse_path(s) == Ok::<(Seq<Seq<char>>, bool), InvalidPath>((split_path(s), s[0] == '/')),
        forall|i: int|
            0 <= i < split_path(s).len() ==> #[trigger] split_path(s)[i].len() > 0 && !split_path(
                s,
            )[i].contains('/'),
{
    assert forall|i: int| 0 <= i < split_path(s).len() implies #[trigger] split_path(s)[i].len() > 0
        && !split_path(s)[i].contains('/') by {
        assert(spec_validate_name(split_path(s)[i]) is Ok);
    }
}

} // verus!
