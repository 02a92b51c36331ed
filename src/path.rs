//! Paths as authors write them and as the state store keys them.
use vstd::prelude::*;

verus! {

/// A path without its locale, as template and widget authors write it.
#[derive(Debug)]
pub struct PathWithoutLocale(pub String);

/// A path that carries its locale (unless the app is not localized). Every
/// state store operation is keyed by one of these.
#[derive(Debug)]
pub struct PathMaybeWithLocale(pub String);

impl View for PathWithoutLocale {
    type V = Seq<char>;

    open spec fn view(&self) -> Seq<char> {
        self.0@
    }
}

impl View for PathMaybeWithLocale {
    type V = Seq<char>;

    open spec fn view(&self) -> Seq<char> {
        self.0@
    }
}

impl Clone for PathWithoutLocale {
    fn clone(&self) -> (r: PathWithoutLocale)
        ensures
            r == *self,
    {
        PathWithoutLocale(self.0.clone())
    }
}

impl Clone for PathMaybeWithLocale {
    fn clone(&self) -> (r: PathMaybeWithLocale)
        ensures
            r == *self,
    {
        PathMaybeWithLocale(self.0.clone())
    }
}

/// The locale that apps without internationalization run under.
pub open spec fn dummy_locale() -> Seq<char> {
    seq!['x', 'x', '-', 'X', 'X']
}

/// A path paired with its locale: the dummy locale adds nothing, any other
/// becomes the first segment.
pub open spec fn localized(path: Seq<char>, locale: Seq<char>) -> Seq<char> {
    if locale == dummy_locale() {
        path
    } else {
        locale + seq!['/'] + path
    }
}

pub open spec fn without_leading_slash(s: Seq<char>) -> Seq<char> {
    if s.len() > 0 && s[0] == '/' {
        s.subrange(1, s.len() as int)
    } else {
        s
    }
}

pub open spec fn without_trailing_slash(s: Seq<char>) -> Seq<char> {
    if s.len() > 0 && s.last() == '/' {
        s.drop_last()
    } else {
        s
    }
}

/// Whether `locale` is the dummy locale.
pub fn is_dummy_locale(locale: &str) -> (r: bool)
    ensures
        r == (locale@ == dummy_locale()),
{
    let dummy = String::from_str("xx-XX");
    let given = String::from_str(locale);
    proof {
        reveal_strlit("xx-XX");
    }
    assert("xx-XX"@ =~= dummy_locale());
    given == dummy
}

/// `s` without one leading `/`, if it has one.
pub fn strip_leading_slash(s: &str) -> (r: &str)
    ensures
        r@ == without_leading_slash(s@),
{
    let n = s.unicode_len();
    if n > 0 && s.get_char(0) == '/' {
        s.substring_char(1, n)
    } else {
        s
    }
}

/// `s` without one trailing `/`, if it has one.
pub fn strip_trailing_slash(s: &str) -> (r: &str)
    ensures
        r@ == without_trailing_slash(s@),
{
    let n = s.unicode_len();
    if n > 0 && s.get_char(n - 1) == '/' {
        s.substring_char(0, n - 1)
    } else {
        s
    }
}

impl PathMaybeWithLocale {
    /// Pairs `path` with `locale`, giving the key under which the state store
    /// knows it.
    pub fn new(path: &PathWithoutLocale, locale: &str) -> (r: PathMaybeWithLocale)
        ensures
            r@ == localized(path@, locale@),
    {
        if is_dummy_locale(locale) {
            PathMaybeWithLocale(path.0.clone())
        } else {
            let mut s = String::from_str(locale);
            s.append("/");
            s.append(path.0.as_str());
            proof {
                reveal_strlit("/");
            }
            assert(s@ =~= locale@ + seq!['/'] + path@);
            PathMaybeWithLocale(s)
        }
    }

    pub fn as_str(&self) -> (r: &str)
        ensures
            r@ == self@,
    {
        self.0.as_str()
    }
}

impl PathWithoutLocale {
    pub fn as_str(&self) -> (r: &str)
        ensures
            r@ == self@,
    {
        self.0.as_str()
    }
}

/// The author-facing path under a store key: the key itself under the dummy
/// locale, else what follows `{locale}/`, if the key starts with that.
pub open spec fn delocalized(path: Seq<char>, locale: Seq<char>) -> Option<Seq<char>> {
    if locale == dummy_locale() {
        Some(path)
    } else {
        let prefix = locale + seq!['/'];
        if prefix.len() <= path.len() && path.subrange(0, prefix.len() as int) == prefix {
            Some(path.subrange(prefix.len() as int, path.len() as int))
        } else {
            None
        }
    }
}

/// Takes the locale back off a store key. `None` where the key does not
/// belong to `locale`.
pub fn strip_locale(path: &PathMaybeWithLocale, locale: &str) -> (r: Option<PathWithoutLocale>)
    ensures
        match r {
            Some(p) => delocalized(path@, locale@) == Some(p@),
            None => delocalized(path@, locale@) is None,
        },
{
    if is_dummy_locale(locale) {
        return Some(PathWithoutLocale(path.0.clone()));
    }
    let mut prefix = String::from_str(locale);
    prefix.append("/");
    proof {
        reveal_strlit("/");
    }
    assert(prefix@ =~= locale@ + seq!['/']);
    let plen = prefix.unicode_len();
    let n = path.0.as_str().unicode_len();
    if plen > n {
        return None;
    }
    let head = String::from_str(path.0.as_str().substring_char(0, plen));
    if head == prefix {
        Some(PathWithoutLocale(String::from_str(path.0.as_str().substring_char(plen, n))))
    } else {
        None
    }
}

/// What `urlencoding::encode` makes of a string.
pub uninterp spec fn url_encoded(s: Seq<char>) -> Seq<char>;

/// The characters that percent-encoding leaves as they are.
pub open spec fn is_unreserved(c: char) -> bool {
    ('0' <= c && c <= '9') || ('A' <= c && c <= 'Z') || ('a' <= c && c <= 'z') || c == '-'
        || c == '.' || c == '_' || c == '~'
}

/// Relies on `urlencoding::encode`: it percent-encodes the UTF-8 bytes of
/// `s`, and hands a string made of unreserved characters back unchanged.
#[verifier::external_body]
fn url_encode(s: &str) -> (r: String)
    ensures
        r@ == url_encoded(s@),
        (forall|i: int| 0 <= i < s@.len() ==> is_unreserved(#[trigger] s@[i])) ==> r@ == s@,
{
    urlencoding::encode(s).into_owned()
}

/// The immutable store key of a widget's build-time state, given the
/// encoded form of its path: `static/{locale}-{encoded}.json`.
pub open spec fn store_key(locale: Seq<char>, encoded: Seq<char>) -> Seq<char> {
    seq!['s', 't', 'a', 't', 'i', 'c', '/'] + locale + seq!['-'] + encoded + seq![
        '.',
        'j',
        's',
        'o',
        'n',
    ]
}

/// Builds the immutable store key from a path that is already URL-encoded.
pub fn store_key_from_encoded(locale: &str, encoded: &str) -> (r: String)
    ensures
        r@ == store_key(locale@, encoded@),
{
    let mut s = String::from_str("static/");
    s.append(locale);
    s.append("-");
    s.append(encoded);
    s.append(".json");
    proof {
        reveal_strlit("static/");
        reveal_strlit("-");
        reveal_strlit(".json");
    }
    assert(s@ =~= store_key(locale@, encoded@));
    s
}

/// The immutable store key under which the build-time state of `path` lies
/// for `locale`.
pub fn immutable_store_key(locale: &str, path: &PathWithoutLocale) -> (r: String)
    ensures
        r@ == store_key(locale@, url_encoded(path@)),
{
    let encoded = url_encode(path.0.as_str());
    store_key_from_encoded(locale, encoded.as_str())
}

/// The non-empty segments of `s` between its `/`s, where `cur` is the part
/// of a segment already read.
pub open spec fn segments_from(s: Seq<char>, cur: Seq<char>) -> Seq<Seq<char>>
    decreases s.len(),
{
    let done = if cur.len() > 0 {
        seq![cur]
    } else {
        Seq::empty()
    };
    if s.len() == 0 {
        done
    } else if s[0] == '/' {
        done + segments_from(s.drop_first(), Seq::empty())
    } else {
        segments_from(s.drop_first(), cur.push(s[0]))
    }
}

/// The non-empty segments of `s` between its `/`s, in order.
pub open spec fn segments(s: Seq<char>) -> Seq<Seq<char>> {
    segments_from(s, Seq::empty())
}

/// The segments of a path, as the router takes them.
pub fn path_segments(path: &str) -> (r: Vec<String>)
    ensures
        r@.map_values(|x: String| x@) == segments(path@),
{
    let n = path.unicode_len();
    let mut out: Vec<String> = Vec::new();
    let mut start: usize = 0;
    let mut i: usize = 0;
    proof {
        assert(path@.subrange(0, n as int) =~= path@);
        assert(path@.subrange(0, 0) =~= Seq::<char>::empty());
        assert(out@.map_values(|x: String| x@) + segments(path@) =~= segments(path@));
    }
    while i < n
        invariant
            n == path@.len(),
            start <= i <= n,
            out@.map_values(|x: String| x@) + segments_from(
                path@.subrange(i as int, n as int),
                path@.subrange(start as int, i as int),
            ) == segments(path@),
        decreases n - i,
    {
        let ghost s = path@;
        let ghost rest = s.subrange(i as int, n as int);
        let ghost cur = s.subrange(start as int, i as int);
        assert(rest.drop_first() =~= s.subrange(i as int + 1, n as int));
        if path.get_char(i) == '/' {
            let ghost before = out@.map_values(|x: String| x@);
            if i > start {
                out.push(String::from_str(path.substring_char(start, i)));
                assert(out@.map_values(|x: String| x@) =~= before + seq![cur]);
            } else {
                assert(cur.len() == 0);
            }
            assert(s.subrange(i as int + 1, i as int + 1) =~= Seq::<char>::empty());
            proof {
                let next = s.subrange(i as int + 1, n as int);
                assert(segments_from(rest, cur) == (if cur.len() > 0 {
                    seq![cur]
                } else {
                    Seq::empty()
                }) + segments_from(next, Seq::empty()));
                if i > start {
                    assert(before + (seq![cur] + segments_from(next, Seq::empty())) =~= (before
                        + seq![cur]) + segments_from(next, Seq::empty()));
                } else {
                    assert(before + (Seq::<Seq<char>>::empty() + segments_from(next, Seq::empty()))
                        =~= before + segments_from(next, Seq::empty()));
                }
            }
            start = i + 1;
        } else {
            assert(cur.push(s[i as int]) =~= s.subrange(start as int, i as int + 1));
        }
        i = i + 1;
    }
    let ghost s = path@;
    let ghost cur = s.subrange(start as int, n as int);
    assert(s.subrange(n as int, n as int) =~= Seq::<char>::empty());
    if start < n {
        let ghost before = out@.map_values(|x: String| x@);
        out.push(String::from_str(path.substring_char(start, n)));
        assert(out@.map_values(|x: String| x@) =~= before + seq![cur]);
    } else {
        assert(out@.map_values(|x: String| x@) + Seq::<Seq<char>>::empty() =~= out@.map_values(
            |x: String| x@,
        ));
    }
    out
}

} // verus!
