//! GIF manager: where a downloaded GIF is cached, and the decisions of the
//! paste flow.
//!
//! The GIF is placed on the clipboard as a file (a file-URL write) rather
//! than as raw bytes or text, so that paste targets attach the animated file.
//! When the download or the file write fails, the flow falls back to putting
//! the URL text on the clipboard. The downloads, directory creation and
//! clipboard writes themselves are done by the host application, which
//! reports each outcome back to [`PasteFlow`].

use vstd::prelude::*;

verus! {

/// The cache directory below the system cache directory.
pub const APP_CACHE_DIR: &'static str = "win11-clipboard-history/gifs";

/// Download timeout, in seconds.
pub const DOWNLOAD_TIMEOUT: u64 = 10;

// --- Names and paths ---

/// The decimal digit character for `d` (0 to 9).
pub open spec fn digit_char(d: int) -> char {
    (d + 48) as char
}

/// Whether `c` is one of '0' to '9'.
pub open spec fn is_digit(c: char) -> bool {
    '0' <= c <= '9'
}

/// The decimal form of `n`, without leading zeros.
pub open spec fn decimal(n: nat) -> Seq<char>
    decreases n,
{
    if n < 10 {
        seq![digit_char(n as int)]
    } else {
        decimal(n / 10).push(digit_char((n % 10) as int))
    }
}

/// `name` appended to the path `base`, with a '/' between them unless `base`
/// is empty or already ends in one.
pub open spec fn joined(base: Seq<char>, name: Seq<char>) -> Seq<char> {
    if base.len() == 0 || base.last() == '/' {
        base + name
    } else {
        base + seq!['/'] + name
    }
}

/// The name of the cached file for a URL whose hash is `hash`.
pub open spec fn gif_file_name(hash: u64) -> Seq<char> {
    decimal(hash as nat) + ".gif"@
}

/// The `file://` URI of a path.
pub open spec fn file_uri(path: Seq<char>) -> Seq<char> {
    "file://"@ + path
}

/// The value that std's default hasher (`DefaultHasher`, as built by
/// `DefaultHasher::new`) gives for a string.
pub uninterp spec fn default_str_hash(s: Seq<char>) -> u64;

/// Hashes `s` with std's default hasher, by `BuildHasher::hash_one` on a
/// `BuildHasherDefault<DefaultHasher>` (a fresh `DefaultHasher::new()`, `s`
/// hashed into it, then `finish`). The contract claims only that the result
/// is a function of the string's characters: the std documentation leaves the
/// algorithm unspecified.
#[verifier::external_body]
fn hash_str(s: &str) -> (h: u64)
    ensures
        h == default_str_hash(s@),
{
    std::hash::BuildHasher::hash_one(
        &std::hash::BuildHasherDefault::<std::collections::hash_map::DefaultHasher>::default(),
        s,
    )
}

/// The string of one decimal digit.
fn digit_str(d: u64) -> (r: &'static str)
    requires
        d < 10,
    ensures
        r@ == seq![digit_char(d as int)],
{
    if d == 0 {
        proof { reveal_strlit("0"); }
        "0"
    } else if d == 1 {
        proof { reveal_strlit("1"); }
        "1"
    } else if d == 2 {
        proof { reveal_strlit("2"); }
        "2"
    } else if d == 3 {
        proof { reveal_strlit("3"); }
        "3"
    } else if d == 4 {
        proof { reveal_strlit("4"); }
        "4"
    } else if d == 5 {
        proof { reveal_strlit("5"); }
        "5"
    } else if d == 6 {
        proof { reveal_strlit("6"); }
        "6"
    } else if d == 7 {
        proof { reveal_strlit("7"); }
        "7"
    } else if d == 8 {
        proof { reveal_strlit("8"); }
        "8"
    } else {
        proof { reveal_strlit("9"); }
        "9"
    }
}

/// The decimal form of `n`, as `u64`'s `Display` writes it.
pub fn decimal_string(n: u64) -> (r: String)
    ensures
        r@ == decimal(n as nat),
    decreases n,
{
    if n < 10 {
        digit_str(n).to_owned()
    } else {
        let mut s = decimal_string(n / 10);
        s.append(digit_str(n % 10));
        s
    }
}

/// `name` appended to the path `base` (see [`joined`]); `name` is relative.
fn join_path(base: &str, name: &str) -> (r: String)
    requires
        name@.len() > 0,
        name@[0] != '/',
    ensures
        r@ == joined(base@, name@),
{
    let n: usize = base.unicode_len();
    let mut s = base.to_owned();
    if n != 0 && base.get_char(n - 1) != '/' {
        proof { reveal_strlit("/"); }
        s.append("/");
    }
    s.append(name);
    s
}

/// The `file://` URI of a path.
pub fn file_uri_of(path: &str) -> (r: String)
    ensures
        r@ == file_uri(path@),
{
    let mut s = "file://".to_owned();
    s.append(path);
    s
}

// --- Cache Management ---

/// The GIF cache directory and the files in it.
pub struct GifCache;

impl GifCache {
    /// The cache directory below the system cache directory, or the error
    /// when the system cache directory could not be resolved. (Creating it
    /// when missing is the caller's part.)
    pub fn get_dir(system_cache_dir: Option<&str>) -> (r: Result<String, String>)
        ensures
            system_cache_dir is None ==> (r matches Err(e) && e@
                == "Failed to resolve system cache directory"@),
            system_cache_dir matches Some(base) ==> (r matches Ok(dir) && dir@ == joined(
                base@,
                APP_CACHE_DIR@,
            )),
    {
        match system_cache_dir {
            None => Err("Failed to resolve system cache directory".to_owned()),
            Some(base) => {
                proof { reveal_strlit("win11-clipboard-history/gifs"); }
                Ok(join_path(base, APP_CACHE_DIR))
            },
        }
    }

    /// The cache file for `url` inside the cache directory: the URL's hash in
    /// decimal, with the extension `gif`. An error in resolving the directory
    /// is passed on.
    pub fn get_path_for_url(cache_dir: Result<String, String>, url: &str) -> (r: Result<
        String,
        String,
    >)
        ensures
            cache_dir matches Err(e) ==> r == Err::<String, String>(e),
            cache_dir matches Ok(dir) ==> (r matches Ok(path) && path@ == joined(
                dir@,
                gif_file_name(default_str_hash(url@)),
            )),
    {
        let hash: u64 = hash_str(url);
        match cache_dir {
            Ok(dir) => Ok(path_for_hash(dir.as_str(), hash)),
            Err(e) => Err(e),
        }
    }
}

/// The cache file inside `cache_dir` of a URL whose hash is `hash`.
pub fn path_for_hash(cache_dir: &str, hash: u64) -> (r: String)
    ensures
        r@ == joined(cache_dir@, gif_file_name(hash)),
{
    let mut name = decimal_string(hash);
    proof { reveal_strlit(".gif"); }
    name.append(".gif");
    proof {
        lemma_decimal_digits(hash as nat);
        assert(is_digit(name@[0]));
    }
    join_path(cache_dir, name.as_str())
}

// --- Downloader ---

/// The download step.
pub struct Downloader;

impl Downloader {
    /// The verdict on an HTTP response status: success for 200 to 299,
    /// otherwise the error `HTTP Error: <status>`, where `status_text` is how
    /// the status displays.
    pub fn check_status(status: u16, status_text: &str) -> (r: Result<(), String>)
        ensures
            200 <= status <= 299 ==> r is Ok,
            !(200 <= status <= 299) ==> (r matches Err(e) && e@ == "HTTP Error: "@ + status_text@),
    {
        if 200 <= status && status <= 299 {
            Ok(())
        } else {
            let mut e = "HTTP Error: ".to_owned();
            e.append(status_text);
            Err(e)
        }
    }
}

// --- Clipboard ---

/// The clipboard step.
pub struct ClipboardHandler;

impl ClipboardHandler {
    /// The outcome of a pasteboard file-URL write that reported `written`.
    pub fn write_outcome(written: bool) -> (r: Result<(), String>)
        ensures
            written ==> r is Ok,
            !written ==> (r matches Err(e) && e@ == "NSPasteboard writeObjects returned false"@),
    {
        if written {
            Ok(())
        } else {
            Err("NSPasteboard writeObjects returned false".to_owned())
        }
    }
}

// --- Paste flow ---

/// What the paste flow does next.
pub enum PasteAction {
    /// Download the GIF into the cache file at this path.
    Download(String),
    /// Put the file at this path on the clipboard as a file URL.
    CopyFileUrl(String),
    /// Fall back to putting the URL text on the clipboard.
    CopyUrlText,
    /// Stop with this result: the URI to mark in the history, or the error.
    Finish(Result<Option<String>, String>),
}

/// The paste flow for one URL. It downloads the GIF into the URL's cache
/// file, then puts that file on the clipboard and finishes with its
/// `file://` URI; when resolving the cache directory, the download or the
/// file write fails it falls back to the URL text and finishes with the URL
/// itself; when that fails too it finishes with the fallback's error.
///
/// The host performs each action and hands its outcome to [`PasteFlow::advance`].
pub struct PasteFlow {
    url: String,
    cache_path: Ghost<Option<Seq<char>>>,
    action: PasteAction,
}

impl PasteFlow {
    /// Each file the flow names is the URL's cache file, and every URI it
    /// finishes with is the URL or that file's URI.
    #[verifier::type_invariant]
    closed spec fn well_formed(self) -> bool {
        match self.action {
            PasteAction::Download(target) => self.cache_path@ == Some(target@),
            PasteAction::CopyFileUrl(target) => self.cache_path@ == Some(target@),
            PasteAction::CopyUrlText => true,
            PasteAction::Finish(Ok(Some(uri))) => uri@ == self.url@ || (self.cache_path@ matches Some(
                path,
            ) && uri@ == file_uri(path)),
            PasteAction::Finish(Ok(None)) => false,
            PasteAction::Finish(Err(_)) => true,
        }
    }

    /// The URL being pasted.
    pub closed spec fn url(self) -> Seq<char> {
        self.url@
    }

    /// The URL's cache file, when the cache directory was resolved.
    pub closed spec fn cache_path(self) -> Option<Seq<char>> {
        self.cache_path@
    }

    /// The action the host is to perform next.
    pub closed spec fn next_action(self) -> PasteAction {
        self.action
    }

    /// Start the flow for `url`, given the outcome of resolving the cache
    /// directory: download into the URL's cache file, or fall back to the
    /// URL text when there is no directory.
    pub fn start(url: &str, cache_dir: Result<String, String>) -> (flow: Self)
        ensures
            flow.url() == url@,
            cache_dir is Err ==> flow.cache_path() is None && flow.next_action() is CopyUrlText,
            cache_dir matches Ok(dir) ==> ({
                let path = joined(dir@, gif_file_name(default_str_hash(url@)));
                &&& flow.cache_path() == Some(path)
                &&& flow.next_action() matches PasteAction::Download(target) && target@ == path
            }),
    {
        match GifCache::get_path_for_url(cache_dir, url) {
            Ok(path) => {
                let ghost p = path@;
                PasteFlow { url: url.to_owned(), cache_path: Ghost(Some(p)), action: PasteAction::Download(path) }
            },
            Err(_) => PasteFlow { url: url.to_owned(), cache_path: Ghost(None), action: PasteAction::CopyUrlText },
        }
    }

    /// The action the host is to perform next.
    pub fn action(&self) -> (r: &PasteAction)
        ensures
            *r == self.next_action(),
    {
        &self.action
    }

    /// Move on, given the outcome of the action just performed.
    pub fn advance(self, outcome: Result<(), String>) -> (next: Self)
        requires
            !(self.next_action() is Finish),
        ensures
            next.url() == self.url(),
            next.cache_path() == self.cache_path(),
            self.next_action() matches PasteAction::Download(target) ==> (outcome is Ok ==> (
            next.next_action() matches PasteAction::CopyFileUrl(t) && t@ == target@)),
            self.next_action() is Download ==> (outcome is Err ==> next.next_action() is CopyUrlText),
            self.next_action() matches PasteAction::CopyFileUrl(target) ==> (outcome is Ok ==> (
            next.next_action() matches PasteAction::Finish(Ok(Some(uri))) && uri@ == file_uri(
                target@,
            ))),
            self.next_action() is CopyFileUrl ==> (outcome is Err ==> next.next_action() is CopyUrlText),
            self.next_action() is CopyUrlText ==> (outcome is Ok ==> (next.next_action() matches PasteAction::Finish(
                Ok(Some(u)),
            ) && u@ == self.url())),
            self.next_action() is CopyUrlText ==> (outcome matches Err(e) ==> next.next_action()
                == PasteAction::Finish(Err(e))),
    {
        proof {
            use_type_invariant(&self);
        }
        let PasteFlow { url, cache_path, action } = self;
        let next_action = match action {
            PasteAction::Download(target) => match outcome {
                Ok(()) => PasteAction::CopyFileUrl(target),
                Err(_) => PasteAction::CopyUrlText,
            },
            PasteAction::CopyFileUrl(target) => match outcome {
                Ok(()) => PasteAction::Finish(Ok(Some(file_uri_of(target.as_str())))),
                Err(_) => PasteAction::CopyUrlText,
            },
            PasteAction::CopyUrlText => match outcome {
                Ok(()) => {
                    let u = url.clone();
                    PasteAction::Finish(Ok(Some(u)))
                },
                Err(e) => PasteAction::Finish(Err(e)),
            },
            PasteAction::Finish(_) => vstd::pervasive::unreached(),
        };
        PasteFlow { url, cache_path, action: next_action }
    }

    /// The result the flow finished with. It is never `Ok(None)`, and a URI
    /// in it is the URL itself or the `file://` URI of the URL's cache file.
    pub fn into_result(self) -> (r: Result<Option<String>, String>)
        requires
            self.next_action() is Finish,
        ensures
            self.next_action() == PasteAction::Finish(r),
            !(r matches Ok(None)),
            r matches Ok(Some(uri)) ==> (uri@ == self.url() || (self.cache_path() matches Some(
                path,
            ) && uri@ == file_uri(path))),
    {
        proof {
            use_type_invariant(&self);
        }
        let PasteFlow { url: _, cache_path: _, action } = self;
        match action {
            PasteAction::Finish(r) => r,
            _ => vstd::pervasive::unreached(),
        }
    }
}

// --- Laws ---

/// The decimal form of a number is non-empty and made of digits only.
pub proof fn lemma_decimal_digits(n: nat)
    ensures
        decimal(n).len() >= 1,
        forall|i: int| 0 <= i < decimal(n).len() ==> is_digit(#[trigger] decimal(n)[i]),
    decreases n,
{
    if n >= 10 {
        lemma_decimal_digits(n / 10);
        assert forall|i: int| 0 <= i < decimal(n).len() implies is_digit(#[trigger] decimal(n)[i]) by {
            if i < decimal(n / 10).len() {
                assert(decimal(n)[i] == decimal(n / 10)[i]);
            }
        }
    }
}

/// Different numbers have different decimal forms, so different hashes give
/// different cache file names.
pub proof fn lemma_decimal_injective(a: nat, b: nat)
    ensures
        decimal(a) == decimal(b) ==> a == b,
    decreases a,
{
    if decimal(a) == decimal(b) {
        lemma_decimal_digits(a);
        lemma_decimal_digits(b);
        if a < 10 && b < 10 {
            assert(decimal(a)[0] == decimal(b)[0]);
        } else if a >= 10 && b >= 10 {
            let pa = decimal(a / 10);
            let pb = decimal(b / 10);
            assert(decimal(a).drop_last() == pa);
            assert(decimal(b).drop_last() == pb);
            lemma_decimal_injective(a / 10, b / 10);
            assert(decimal(a).last() == decimal(b).last());
        } else if a < 10 {
            lemma_decimal_digits(b / 10);
        } else {
            lemma_decimal_digits(a / 10);
        }
    }
}

/// The cache file of a URL is named by the hash in decimal digits followed by
/// `.gif`: its extension is `gif`, and it holds no '/' (so it lies directly
/// in the cache directory).
pub proof fn lemma_gif_file_name(hash: u64)
    ensures
        gif_file_name(hash).len() >= 5,
        gif_file_name(hash).subrange(gif_file_name(hash).len() - 4, gif_file_name(hash).len() as int)
            == ".gif"@,
        forall|i: int|
            0 <= i < gif_file_name(hash).len() - 4 ==> is_digit(#[trigger] gif_file_name(hash)[i]),
        forall|i: int| 0 <= i < gif_file_name(hash).len() ==> #[trigger] gif_file_name(hash)[i] != '/',
{
    reveal_strlit(".gif");
    let d = decimal(hash as nat);
    lemma_decimal_digits(hash as nat);
    let name = gif_file_name(hash);
    assert(name.subrange(name.len() - 4, name.len() as int) =~= ".gif"@);
    assert forall|i: int| 0 <= i < name.len() - 4 implies is_digit(#[trigger] name[i]) by {
        assert(name[i] == d[i]);
    }
    assert forall|i: int| 0 <= i < name.len() implies #[trigger] name[i] != '/' by {
        if i < d.len() {
            assert(name[i] == d[i]);
            assert(is_digit(d[i]));
        }
    }
}

/// A joined path starts with the base and ends with the appended name, with
/// a '/' right before the name unless the base is empty.
pub proof fn lemma_joined_parts(base: Seq<char>, name: Seq<char>)
    ensures
        joined(base, name).len() >= base.len() + name.len(),
        joined(base, name).subrange(0, base.len() as int) == base,
        joined(base, name).subrange(
            joined(base, name).len() - name.len(),
            joined(base, name).len() as int,
        ) == name,
        base.len() > 0 ==> joined(base, name)[joined(base, name).len() - name.len() - 1] == '/',
        joined(base, name).len() == base.len() + name.len() + (if base.len() > 0 && base.last()
            != '/' {
            1int
        } else {
            0int
        }),
{
    let j = joined(base, name);
    assert(j.subrange(0, base.len() as int) =~= base);
    assert(j.subrange(j.len() - name.len(), j.len() as int) =~= name);
}

/// The number that a string of decimal digits reads as.
pub open spec fn digits_value(s: Seq<char>) -> int
    decreases s.len(),
{
    if s.len() == 0 {
        0
    } else {
        10 * digits_value(s.drop_last()) + (s.last() as int - '0' as int)
    }
}

/// The decimal form of `n` reads back as `n`, and has no leading zero.
pub proof fn lemma_decimal_value(n: nat)
    ensures
        digits_value(decimal(n)) == n,
        decimal(n).len() > 1 ==> decimal(n)[0] != '0',
    decreases n,
{
    let d: int = (n % 10) as int;
    assert(digit_char(d) as int == d + 48);
    assert('0' as int == 48);
    let s = decimal(n);
    assert(s.last() == digit_char(d));
    assert(digits_value(s) == 10 * digits_value(s.drop_last()) + (s.last() as int - '0' as int));
    if n < 10 {
        assert(s.drop_last().len() == 0);
        assert(digits_value(s.drop_last()) == 0);
    } else {
        lemma_decimal_value(n / 10);
        lemma_decimal_digits(n / 10);
        assert(decimal(n).drop_last() =~= decimal(n / 10));
        assert(decimal(n)[0] == decimal(n / 10)[0]);
        if decimal(n / 10).len() == 1 {
            assert(decimal(n / 10)[0] != '0') by {
                if decimal(n / 10)[0] == '0' {
                    assert(digits_value(decimal(n / 10)) == 10 * digits_value(
                        decimal(n / 10).drop_last(),
                    ) + 0);
                    assert(decimal(n / 10).drop_last().len() == 0);
                }
            }
        }
    }
}

/// The digits of a cache file name read back as the hash it was made from,
/// with no leading zero; so different hashes always give different names.
pub proof fn lemma_gif_file_name_value(hash: u64)
    ensures
        ({
            let name = gif_file_name(hash);
            let digits = name.subrange(0, name.len() - 4);
            &&& name.len() >= 5
            &&& name.subrange(name.len() - 4, name.len() as int) == ".gif"@
            &&& forall|i: int| 0 <= i < digits.len() ==> is_digit(#[trigger] digits[i])
            &&& digits_value(digits) == hash
            &&& (digits.len() > 1 ==> digits[0] != '0')
        }),
{
    lemma_gif_file_name(hash);
    lemma_decimal_value(hash as nat);
    lemma_decimal_digits(hash as nat);
    let name = gif_file_name(hash);
    assert(name.subrange(0, name.len() - 4) =~= decimal(hash as nat));
}

/// Two URL hashes give the same cache file name only when they are equal.
pub proof fn lemma_gif_file_name_injective(a: u64, b: u64)
    ensures
        gif_file_name(a) == gif_file_name(b) ==> a == b,
{
    lemma_gif_file_name_value(a);
    lemma_gif_file_name_value(b);
}

/// The `file://` URI of a path is "file://" followed by the whole path.
pub proof fn lemma_file_uri(path: Seq<char>)
    ensures
        file_uri(path).len() == 7 + path.len(),
        file_uri(path).subrange(0, 7) == seq!['f', 'i', 'l', 'e', ':', '/', '/'],
        file_uri(path).subrange(7, file_uri(path).len() as int) == path,
{
    reveal_strlit("file://");
    let u = file_uri(path);
    assert(u.subrange(0, 7) =~= seq!['f', 'i', 'l', 'e', ':', '/', '/']);
    assert(u.subrange(7, u.len() as int) =~= path);
}

} // verus!
