//! Foundation value adapters: conversions between native values and the
//! foreign runtime's text, URL, file-handle, dictionary and error
//! objects, each modelled by the plain data the library's rules read.

use vstd::prelude::*;
use vstd::string::StrSliceExecFns;
use vstd::string::StringExecFns;
use vstd::utf8::decode_utf8;
use vstd::utf8::encode_utf8;
use vstd::utf8::valid_utf8;

verus! {

/// The code a success sentinel error carries.
pub const CODE_SUCCESS: i64 = 0;

/// The code reporting that the hypervisor does not support virtual
/// machines on this host; nothing of the library's machine surface can
/// be used then.
pub const CODE_UNSUPPORTED_PLATFORM: i64 = 1;

/// The code of a failed configuration validation.
pub const CODE_VALIDATION: i64 = 2;

/// The code of a failed attachment or variable-store creation.
pub const CODE_ATTACHMENT_CREATION: i64 = 3;

/// The code of a runtime request the hypervisor rejected.
pub const CODE_RUNTIME_REQUEST: i64 = 4;

/// The code of an internal-consistency fault: a foreign string whose
/// bytes are not valid UTF-8, although the platform guarantees UTF-8 on
/// this surface.
pub const CODE_CODEC_FAULT: i64 = 5;

/// A foreign text object, held as the UTF-8 bytes it stores.
#[derive(Debug)]
pub struct NSString {
    bytes: Vec<u8>,
}

/// Relies on `core::str::from_utf8`: returns the string viewing exactly
/// the given bytes when they are valid UTF-8, and nothing otherwise.
#[verifier::external_body]
fn bytes_to_str(v: &Vec<u8>) -> (r: Option<&str>)
    ensures
        match r {
            Some(s) => valid_utf8(v@) && encode_utf8(s@) == v@,
            None => !valid_utf8(v@),
        },
{
    match core::str::from_utf8(v.as_slice()) {
        Ok(s) => Some(s),
        Err(_) => None,
    }
}

impl View for NSString {
    type V = Seq<u8>;

    closed spec fn view(&self) -> Seq<u8> {
        self.bytes@
    }
}

impl NSString {
    /// Encode native text into a foreign text object, losslessly: the
    /// object holds exactly the UTF-8 encoding of the text.
    pub fn new(string: &str) -> (r: NSString)
        ensures
            r@ == encode_utf8(string@),
    {
        NSString { bytes: string.as_bytes_vec() }
    }

    /// Wrap bytes handed over by the foreign runtime, which may or may
    /// not be valid UTF-8.
    pub fn from_bytes(bytes: Vec<u8>) -> (r: NSString)
        ensures
            r@ == bytes@,
    {
        NSString { bytes }
    }

    /// The length of the text in bytes.
    pub fn len(&self) -> (r: usize)
        ensures
            r == self@.len(),
    {
        self.bytes.len()
    }

    /// The bytes the foreign text object stores.
    pub fn bytes(&self) -> (r: &Vec<u8>)
        ensures
            r@ == self@,
    {
        &self.bytes
    }

    /// Decode the foreign text back into native text. Valid UTF-8 bytes
    /// decode to exactly the text they encode; anything else is an
    /// internal-consistency fault, since the platform guarantees UTF-8
    /// on this surface.
    pub fn as_str(&self) -> (r: Result<String, NSError>)
        ensures
            r is Ok <==> valid_utf8(self@),
            r matches Ok(s) ==> s@ == decode_utf8(self@) && encode_utf8(s@) == self@,
            r matches Err(e) ==> e@.code == CODE_CODEC_FAULT,
    {
        match bytes_to_str(&self.bytes) {
            Some(s) => {
                proof {
                    broadcast use vstd::utf8::encode_utf8_decode_utf8;

                }
                Ok(s.to_owned())
            },
            None => Err(
                NSError::new(
                    CODE_CODEC_FAULT,
                    String::from_str("foreign text bytes are not valid UTF-8"),
                ),
            ),
        }
    }
}

impl Clone for NSString {
    /// Cloning a foreign text object keeps its bytes.
    fn clone(&self) -> (r: Self)
        ensures
            r@ == self@,
    {
        NSString { bytes: self.bytes.clone() }
    }
}

/// Law: text encoding round-trips. The bytes of any encoded text are
/// valid UTF-8 and decode to exactly the text that was encoded,
/// including the empty text.
pub proof fn lemma_text_round_trip(s: Seq<char>)
    ensures
        valid_utf8(encode_utf8(s)),
        decode_utf8(encode_utf8(s)) == s,
{
    broadcast use vstd::utf8::encode_utf8_valid_utf8, vstd::utf8::encode_utf8_decode_utf8;

}

/// The mathematical state of a foreign URL object: a filesystem path
/// and whether it designates a directory.
#[verifier::ext_equal]
pub struct UrlView {
    pub path: Seq<char>,
    pub is_directory: bool,
}

/// A path is absolute when it starts at the filesystem root.
pub open spec fn path_is_absolute(p: Seq<char>) -> bool {
    p.len() > 0 && p[0] == '/'
}

/// The absolute form of a path: an absolute path stands as it is; the
/// model resolves a relative path against the filesystem root, which is
/// the model's working directory.
pub open spec fn absolutized(p: Seq<char>) -> Seq<char> {
    if path_is_absolute(p) {
        p
    } else {
        seq!['/'] + p
    }
}

/// Law: taking the absolute form of a URL is idempotent — applying it
/// twice yields the same path as applying it once, for any path.
pub proof fn lemma_absolutized_idempotent(p: Seq<char>)
    ensures
        absolutized(absolutized(p)) == absolutized(p),
{
    if !path_is_absolute(p) {
        assert((seq!['/'] + p)[0] == '/');
    }
}

/// A foreign URL object for a filesystem location.
#[derive(Debug)]
pub struct NSURL {
    path: String,
    is_directory: bool,
}

impl View for NSURL {
    type V = UrlView;

    closed spec fn view(&self) -> UrlView {
        UrlView { path: self.path@, is_directory: self.is_directory }
    }
}

impl NSURL {
    /// A URL from a URL string; the string is taken as the designated
    /// path.
    pub fn url_with_string(url: &str) -> (r: NSURL)
        ensures
            r@ == (UrlView { path: url@, is_directory: false }),
    {
        NSURL { path: url.to_owned(), is_directory: false }
    }

    /// A file URL for the given filesystem path.
    pub fn file_url_with_path(path: &str, is_directory: bool) -> (r: NSURL)
        ensures
            r@ == (UrlView { path: path@, is_directory }),
    {
        NSURL { path: path.to_owned(), is_directory }
    }

    /// The path the URL designates.
    pub fn path(&self) -> (r: &String)
        ensures
            r@ == self@.path,
    {
        &self.path
    }

    /// Whether the URL designates a directory.
    pub fn is_directory(&self) -> (r: bool)
        ensures
            r == self@.is_directory,
    {
        self.is_directory
    }

    /// The URL in absolute form; every filesystem path is brought to
    /// this form before it is handed to a device attachment, because the
    /// hypervisor rejects relative paths.
    pub fn absolute_url(&self) -> (r: NSURL)
        ensures
            r@ == (UrlView { path: absolutized(self@.path), is_directory: self@.is_directory }),
    {
        proof {
            reveal_strlit("/");
        }
        if self.path.as_str().unicode_len() > 0 && self.path.as_str().get_char(0) == '/' {
            NSURL { path: self.path.clone(), is_directory: self.is_directory }
        } else {
            let prefixed = String::from_str("/").concat(self.path.as_str());
            proof {
                assert(prefixed@ =~= absolutized(self@.path));
            }
            NSURL { path: prefixed, is_directory: self.is_directory }
        }
    }

    /// Whether the host can reach a file at this URL's absolute path.
    pub fn check_resource_is_reachable_and_return_error(&self, host: &crate::host::Host) -> (r:
        bool)
        ensures
            r == host@.files.contains(absolutized(self@.path)),
    {
        let absolute = self.absolute_url();
        host.file_reachable(absolute.path().as_str())
    }
}

impl Clone for NSURL {
    /// Cloning a URL keeps its path and directory flag.
    fn clone(&self) -> (r: Self)
        ensures
            r@ == self@,
    {
        NSURL { path: self.path.clone(), is_directory: self.is_directory }
    }
}

/// A foreign file-handle object, by what it designates.
#[derive(Clone, Copy, PartialEq, Eq, Structural, Debug)]
pub enum FileHandleKind {
    /// A handle that reads and writes nothing.
    NullDevice,
    /// The process's standard input.
    StandardInput,
    /// The process's standard output.
    StandardOutput,
}

/// A foreign file handle.
pub struct NSFileHandle {
    kind: FileHandleKind,
}

impl View for NSFileHandle {
    type V = FileHandleKind;

    closed spec fn view(&self) -> FileHandleKind {
        self.kind
    }
}

impl NSFileHandle {
    /// A handle associated with no file: it reads and writes nothing.
    pub fn new() -> (r: NSFileHandle)
        ensures
            r@ == FileHandleKind::NullDevice,
    {
        NSFileHandle { kind: FileHandleKind::NullDevice }
    }

    /// The handle of the process's standard input.
    pub fn file_handle_with_standard_input() -> (r: NSFileHandle)
        ensures
            r@ == FileHandleKind::StandardInput,
    {
        NSFileHandle { kind: FileHandleKind::StandardInput }
    }

    /// The handle of the process's standard output.
    pub fn file_handle_with_standard_output() -> (r: NSFileHandle)
        ensures
            r@ == FileHandleKind::StandardOutput,
    {
        NSFileHandle { kind: FileHandleKind::StandardOutput }
    }

    /// What the handle designates.
    pub fn kind(&self) -> (r: FileHandleKind)
        ensures
            r == self@,
    {
        self.kind
    }
}

/// A foreign array of object references, held as the raw reference
/// values it stores, in order. Device lists take this form when they
/// are handed to the foreign runtime.
#[derive(Debug)]
pub struct NSArray {
    items: Vec<usize>,
}

impl View for NSArray {
    type V = Seq<usize>;

    closed spec fn view(&self) -> Seq<usize> {
        self.items@
    }
}

impl NSArray {
    /// An array holding the given object references, in order.
    pub fn array_with_objects(objects: Vec<usize>) -> (r: NSArray)
        ensures
            r@ == objects@,
    {
        NSArray { items: objects }
    }

    /// How many references the array holds.
    pub fn count(&self) -> (r: usize)
        ensures
            r == self@.len(),
    {
        self.items.len()
    }

    /// The reference at the given index.
    pub fn object_at_index(&self, index: usize) -> (r: usize)
        requires
            index < self@.len(),
        ensures
            r == self@[index as int],
    {
        self.items[index]
    }
}

/// A foreign dictionary of diagnostic key/value text pairs.
#[derive(Debug)]
pub struct NSDictionary {
    pairs: Vec<(String, String)>,
}

impl View for NSDictionary {
    type V = Seq<(Seq<char>, Seq<char>)>;

    closed spec fn view(&self) -> Seq<(Seq<char>, Seq<char>)> {
        Seq::new(self.pairs@.len(), |i: int| (self.pairs@[i].0@, self.pairs@[i].1@))
    }
}

impl NSDictionary {
    /// An empty dictionary.
    pub fn new() -> (r: NSDictionary)
        ensures
            r@ == Seq::<(Seq<char>, Seq<char>)>::empty(),
    {
        let r = NSDictionary { pairs: Vec::new() };
        proof {
            assert(r@ =~= Seq::<(Seq<char>, Seq<char>)>::empty());
        }
        r
    }

    /// Add one key/value pair.
    pub fn insert(&mut self, key: String, value: String)
        ensures
            final(self)@ == old(self)@.push((key@, value@)),
    {
        let ghost prev = self@;
        self.pairs.push((key, value));
        proof {
            assert(self@ =~= prev.push((key@, value@)));
        }
    }

    /// How many pairs the dictionary holds.
    pub fn count(&self) -> (r: usize)
        ensures
            r == self@.len(),
    {
        self.pairs.len()
    }

    /// The keys, in insertion order.
    pub fn all_keys(&self) -> (r: Vec<String>)
        ensures
            r.deep_view() == Seq::new(self@.len(), |i: int| self@[i].0),
    {
        let mut keys: Vec<String> = Vec::new();
        let mut i: usize = 0;
        while i < self.pairs.len()
            invariant
                i <= self.pairs.len(),
                self@.len() == self.pairs.len(),
                keys@.len() == i,
                forall|j: int| 0 <= j < i ==> (#[trigger] keys@[j])@ == self@[j].0,
            decreases self.pairs.len() - i,
        {
            keys.push(self.pairs[i].0.clone());
            i += 1;
        }
        proof {
            assert(keys.deep_view() =~= Seq::new(self@.len(), |j: int| self@[j].0));
        }
        keys
    }

    /// The values, in insertion order.
    pub fn all_values(&self) -> (r: Vec<String>)
        ensures
            r.deep_view() == Seq::new(self@.len(), |i: int| self@[i].1),
    {
        let mut values: Vec<String> = Vec::new();
        let mut i: usize = 0;
        while i < self.pairs.len()
            invariant
                i <= self.pairs.len(),
                self@.len() == self.pairs.len(),
                values@.len() == i,
                forall|j: int| 0 <= j < i ==> (#[trigger] values@[j])@ == self@[j].1,
            decreases self.pairs.len() - i,
        {
            values.push(self.pairs[i].1.clone());
            i += 1;
        }
        proof {
            assert(values.deep_view() =~= Seq::new(self@.len(), |j: int| self@[j].1));
        }
        values
    }
}

/// The character of one decimal digit.
pub open spec fn decimal_digit_char(d: int) -> char {
    if d == 0 {
        '0'
    } else if d == 1 {
        '1'
    } else if d == 2 {
        '2'
    } else if d == 3 {
        '3'
    } else if d == 4 {
        '4'
    } else if d == 5 {
        '5'
    } else if d == 6 {
        '6'
    } else if d == 7 {
        '7'
    } else if d == 8 {
        '8'
    } else {
        '9'
    }
}

/// The decimal digits of a non-negative number, most significant first.
pub open spec fn decimal_digits(n: int) -> Seq<char>
    recommends
        n >= 0,
    decreases n,
{
    if n < 10 {
        seq![decimal_digit_char(n)]
    } else {
        decimal_digits(n / 10).push(decimal_digit_char(n % 10))
    }
}

/// The decimal text of a number: its digits, after a minus sign when it
/// is negative.
pub open spec fn decimal_text(n: int) -> Seq<char> {
    if n < 0 {
        seq!['-'] + decimal_digits(-n)
    } else {
        decimal_digits(n)
    }
}

/// The text of one decimal digit.
fn digit_str(d: u64) -> (s: &'static str)
    requires
        d < 10,
    ensures
        s@ == seq![decimal_digit_char(d as int)],
{
    proof {
        reveal_strlit("0");
        reveal_strlit("1");
        reveal_strlit("2");
        reveal_strlit("3");
        reveal_strlit("4");
        reveal_strlit("5");
        reveal_strlit("6");
        reveal_strlit("7");
        reveal_strlit("8");
        reveal_strlit("9");
    }
    if d == 0 {
        "0"
    } else if d == 1 {
        "1"
    } else if d == 2 {
        "2"
    } else if d == 3 {
        "3"
    } else if d == 4 {
        "4"
    } else if d == 5 {
        "5"
    } else if d == 6 {
        "6"
    } else if d == 7 {
        "7"
    } else if d == 8 {
        "8"
    } else {
        "9"
    }
}

/// Render the decimal digits of a magnitude, most significant first.
fn decimal_magnitude_string(magnitude: u64) -> (s: String)
    ensures
        s@ == decimal_digits(magnitude as int),
{
    let mut reversed: Vec<u64> = Vec::new();
    reversed.push(magnitude % 10);
    let mut m = magnitude / 10;
    proof {
        assert(digits_of(Seq::<u64>::empty()) == Seq::<char>::empty());
        assert(reversed@.drop_last() =~= Seq::<u64>::empty());
        if magnitude >= 10 {
            assert(decimal_digits(magnitude as int) == decimal_digits(magnitude as int / 10).push(
                decimal_digit_char(magnitude as int % 10),
            ));
            assert(decimal_digits(m as int) + digits_of(reversed@) =~= decimal_digits(
                magnitude as int,
            ));
        } else {
            assert(digits_of(reversed@) =~= decimal_digits(magnitude as int));
        }
    }
    while m > 0
        invariant
            forall|j: int| 0 <= j < reversed@.len() ==> (#[trigger] reversed@[j]) < 10,
            m > 0 ==> decimal_digits(magnitude as int) == decimal_digits(m as int) + digits_of(
                reversed@,
            ),
            m == 0 ==> decimal_digits(magnitude as int) == digits_of(reversed@),
        decreases m,
    {
        let ghost prev = reversed@;
        let ghost prev_m = m as int;
        reversed.push(m % 10);
        m = m / 10;
        proof {
            lemma_digits_of_push(prev, (prev_m % 10) as u64);
            if prev_m >= 10 {
                assert(decimal_digits(prev_m) == decimal_digits(prev_m / 10).push(
                    decimal_digit_char(prev_m % 10),
                ));
                assert(decimal_digits(prev_m / 10) + digits_of(reversed@) =~= decimal_digits(
                    prev_m,
                ) + digits_of(prev));
            } else {
                assert(decimal_digits(prev_m) =~= seq![decimal_digit_char(prev_m)]);
                assert(digits_of(reversed@) =~= decimal_digits(prev_m) + digits_of(prev));
            }
        }
    }
    let mut s = String::new();
    let mut i: usize = reversed.len();
    proof {
        assert(reversed@.skip(reversed@.len() as int) =~= Seq::<u64>::empty());
        assert(s@ =~= digits_of(reversed@.skip(i as int)));
    }
    while i > 0
        invariant
            i <= reversed@.len(),
            forall|j: int| 0 <= j < reversed@.len() ==> (#[trigger] reversed@[j]) < 10,
            s@ == digits_of(reversed@.skip(i as int)),
        decreases i,
    {
        i = i - 1;
        let ghost prev = s@;
        let digit = reversed[i];
        s.append(digit_str(digit));
        proof {
            assert(reversed@.skip(i as int) =~= seq![digit] + reversed@.skip(i as int + 1));
            lemma_digits_of_prepend(digit, reversed@.skip(i as int + 1));
            assert(s@ =~= digits_of(reversed@.skip(i as int)));
        }
    }
    proof {
        assert(reversed@.skip(0) =~= reversed@);
    }
    s
}

/// The digit characters of a reversed digit list, most significant
/// first: the list's last digit comes first.
spec fn digits_of(reversed: Seq<u64>) -> Seq<char>
    decreases reversed.len(),
{
    if reversed.len() == 0 {
        Seq::empty()
    } else {
        seq![decimal_digit_char(reversed.last() as int)] + digits_of(reversed.drop_last())
    }
}

proof fn lemma_digits_of_push(reversed: Seq<u64>, d: u64)
    ensures
        digits_of(reversed.push(d)) == seq![decimal_digit_char(d as int)] + digits_of(reversed),
{
    assert(reversed.push(d).last() == d);
    assert(reversed.push(d).drop_last() =~= reversed);
}

proof fn lemma_digits_of_prepend(d: u64, rest: Seq<u64>)
    ensures
        digits_of(seq![d] + rest) == digits_of(rest) + seq![decimal_digit_char(d as int)],
    decreases rest.len(),
{
    let whole = seq![d] + rest;
    if rest.len() == 0 {
        assert(whole =~= seq![d]);
        assert(whole.drop_last() =~= Seq::<u64>::empty());
        assert(digits_of(Seq::<u64>::empty()) == Seq::<char>::empty());
        assert(digits_of(whole) =~= digits_of(rest) + seq![decimal_digit_char(d as int)]);
    } else {
        let tail = rest.drop_last();
        lemma_digits_of_prepend(d, tail);
        assert(whole.last() == rest.last());
        assert(whole.drop_last() =~= seq![d] + tail);
        assert(digits_of(whole) == seq![decimal_digit_char(whole.last() as int)] + digits_of(
            whole.drop_last(),
        ));
        assert(digits_of(whole.drop_last()) == digits_of(seq![d] + tail));
        assert(digits_of(rest) == seq![decimal_digit_char(rest.last() as int)] + digits_of(tail));
        assert(digits_of(whole) =~= digits_of(rest) + seq![decimal_digit_char(d as int)]);
    }
}

/// Render a number as decimal text.
pub fn decimal_string(n: i64) -> (s: String)
    ensures
        s@ == decimal_text(n as int),
{
    proof {
        reveal_strlit("-");
    }
    if n >= 0 {
        decimal_magnitude_string(n as u64)
    } else {
        let magnitude = ((-(n + 1)) as u64) + 1;
        assert(magnitude as int == -(n as int));
        let digits = decimal_magnitude_string(magnitude);
        let s = String::from_str("-").concat(digits.as_str());
        proof {
            assert(s@ =~= decimal_text(n as int));
        }
        s
    }
}

/// The mathematical state of a foreign error object.
#[verifier::ext_equal]
pub struct ErrorView {
    pub code: int,
    pub localized_description: Seq<char>,
    pub localized_failure_reason: Seq<char>,
    pub localized_recovery_suggestion: Seq<char>,
    pub help_anchor: Seq<char>,
    pub user_info: Seq<(Seq<char>, Seq<char>)>,
}

/// A foreign error object: a numeric code — zero is the success
/// sentinel, anything else a failure — four human-readable description
/// strings, and a key/value diagnostic mapping that is for operator
/// visibility only and never parsed.
#[derive(Debug)]
pub struct NSError {
    code: i64,
    localized_description: String,
    localized_failure_reason: String,
    localized_recovery_suggestion: String,
    help_anchor: String,
    user_info: NSDictionary,
}

impl View for NSError {
    type V = ErrorView;

    closed spec fn view(&self) -> ErrorView {
        ErrorView {
            code: self.code as int,
            localized_description: self.localized_description@,
            localized_failure_reason: self.localized_failure_reason@,
            localized_recovery_suggestion: self.localized_recovery_suggestion@,
            help_anchor: self.help_anchor@,
            user_info: self.user_info@,
        }
    }
}

impl NSError {
    /// The success sentinel: code zero and no diagnostics.
    pub fn nil() -> (r: NSError)
        ensures
            r@.code == CODE_SUCCESS,
            r@.localized_description.len() == 0,
            r@.localized_failure_reason.len() == 0,
            r@.localized_recovery_suggestion.len() == 0,
            r@.help_anchor.len() == 0,
            r@.user_info.len() == 0,
    {
        NSError {
            code: CODE_SUCCESS,
            localized_description: String::new(),
            localized_failure_reason: String::new(),
            localized_recovery_suggestion: String::new(),
            help_anchor: String::new(),
            user_info: NSDictionary::new(),
        }
    }

    /// An error with the given code and description and no further
    /// diagnostics.
    pub fn new(code: i64, localized_description: String) -> (r: NSError)
        ensures
            r@.code == code,
            r@.localized_description == localized_description@,
            r@.localized_failure_reason.len() == 0,
            r@.localized_recovery_suggestion.len() == 0,
            r@.help_anchor.len() == 0,
            r@.user_info.len() == 0,
    {
        NSError {
            code,
            localized_description,
            localized_failure_reason: String::new(),
            localized_recovery_suggestion: String::new(),
            help_anchor: String::new(),
            user_info: NSDictionary::new(),
        }
    }

    /// An error with every description string and the diagnostic
    /// mapping.
    pub fn with_details(
        code: i64,
        localized_description: String,
        localized_failure_reason: String,
        localized_recovery_suggestion: String,
        help_anchor: String,
        user_info: NSDictionary,
    ) -> (r: NSError)
        ensures
            r@ == (ErrorView {
                code: code as int,
                localized_description: localized_description@,
                localized_failure_reason: localized_failure_reason@,
                localized_recovery_suggestion: localized_recovery_suggestion@,
                help_anchor: help_anchor@,
                user_info: user_info@,
            }),
    {
        NSError {
            code,
            localized_description,
            localized_failure_reason,
            localized_recovery_suggestion,
            help_anchor,
            user_info,
        }
    }

    /// The numeric code; zero means no error.
    pub fn code(&self) -> (r: i64)
        ensures
            r == self@.code,
    {
        self.code
    }

    /// Whether the value reports a failure.
    pub fn is_failure(&self) -> (r: bool)
        ensures
            r == (self@.code != CODE_SUCCESS),
    {
        self.code != CODE_SUCCESS
    }

    /// The primary human-readable description.
    pub fn localized_description(&self) -> (r: String)
        ensures
            r@ == self@.localized_description,
    {
        self.localized_description.clone()
    }

    /// The human-readable failure reason.
    pub fn localized_failure_reason(&self) -> (r: String)
        ensures
            r@ == self@.localized_failure_reason,
    {
        self.localized_failure_reason.clone()
    }

    /// The human-readable recovery suggestion.
    pub fn localized_recovery_suggestion(&self) -> (r: String)
        ensures
            r@ == self@.localized_recovery_suggestion,
    {
        self.localized_recovery_suggestion.clone()
    }

    /// The help anchor.
    pub fn help_anchor(&self) -> (r: String)
        ensures
            r@ == self@.help_anchor,
    {
        self.help_anchor.clone()
    }

    /// The key/value diagnostic mapping.
    pub fn user_info(&self) -> (r: &NSDictionary)
        ensures
            r@ == self@.user_info,
    {
        &self.user_info
    }

    /// The operator-visible dump of the error, line by line: the code,
    /// the four description strings, and the diagnostic pairs. The
    /// lines are for operator visibility only and never parsed.
    pub fn dump_lines(&self) -> (lines: Vec<String>)
        ensures
            lines.deep_view() == error_dump_lines(self@),
    {
        let mut lines: Vec<String> = Vec::new();
        let code = decimal_string(self.code);
        lines.push(String::from_str("code: ").concat(code.as_str()));
        lines.push(
            String::from_str("localizedDescription : ").concat(self.localized_description.as_str()),
        );
        lines.push(
            String::from_str("localizedFailureReason : ").concat(
                self.localized_failure_reason.as_str(),
            ),
        );
        lines.push(
            String::from_str("localizedRecoverySuggestion : ").concat(
                self.localized_recovery_suggestion.as_str(),
            ),
        );
        lines.push(String::from_str("helpAnchor : ").concat(self.help_anchor.as_str()));
        lines.push(String::from_str("userInfo :"));
        let mut i: usize = 0;
        while i < self.user_info.pairs.len()
            invariant
                i <= self.user_info.pairs@.len(),
                self@.user_info.len() == self.user_info.pairs@.len(),
                lines@.len() == 6 + i,
                forall|j: int|
                    0 <= j < 6 + i ==> (#[trigger] lines@[j])@ == error_dump_lines(self@)[j],
            decreases self.user_info.pairs.len() - i,
        {
            let mut line = String::from_str("    key: ");
            line.append(self.user_info.pairs[i].0.as_str());
            line.append(", value: ");
            line.append(self.user_info.pairs[i].1.as_str());
            lines.push(line);
            i += 1;
        }
        proof {
            assert(lines.deep_view() =~= error_dump_lines(self@));
        }
        lines
    }
}

/// The operator-visible dump of an error, line by line: the code, the
/// four description strings, a heading, and one line per diagnostic
/// pair.
pub open spec fn error_dump_lines(e: ErrorView) -> Seq<Seq<char>> {
    seq![
        "code: "@ + decimal_text(e.code),
        "localizedDescription : "@ + e.localized_description,
        "localizedFailureReason : "@ + e.localized_failure_reason,
        "localizedRecoverySuggestion : "@ + e.localized_recovery_suggestion,
        "helpAnchor : "@ + e.help_anchor,
        "userInfo :"@,
    ] + Seq::new(
        e.user_info.len(),
        |i: int| "    key: "@ + e.user_info[i].0 + ", value: "@ + e.user_info[i].1,
    )
}

} // verus!
