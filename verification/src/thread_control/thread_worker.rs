use vstd::prelude::*;
use vstd::std_specs::cmp::PartialEqSpecImpl;
use vstd::string::*;

verus! {

/// A named worker together with the function it runs when it is started, if it has one.
///
/// `F` is whatever stands for the function: the runtime keeps the closure itself there.
pub struct ThreadWorker<F> {
    name: String,
    will_be_execute_function: Option<F>,
}

/// The text `format!("{:?}", s)` gives for the string `s`: the string in double quotes, with
/// quotes, backslashes and other special characters escaped.
pub uninterp spec fn str_debug(s: Seq<char>) -> Seq<char>;

/// Renders `text` as `Debug` renders a string, by calling `format!("{:?}", text)`.
///
/// Trusted: the rendering depends on the text alone, and is named `str_debug`; what it holds is
/// left to std's escaping rules.
#[verifier::external_body]
fn debug_str(text: &str) -> (rendered: String)
    ensures
        rendered@ == str_debug(text@),
{
    format!("{:?}", text)
}

/// How a worker that holds a function shows its function.
pub open spec fn function_debug_text() -> Seq<char> {
    "\"Some(Arc<Mutex<Box<dyn Fn() -> Pin<Box<dyn Future<Output = ()>>> + Send>>>)\""@
}

/// Whether `Debug` shows the character `c` inside a string as `c` itself: the printable ASCII
/// characters other than `"` and `\`, and the Latin-1 characters from U+00A1 to U+00FF other
/// than the soft hyphen U+00AD. std's `impl Debug for str` escapes a character only when it is
/// one of `\0 \t \r \n \\ "`, grapheme-extending (none is below U+0300) or not printable (every
/// character here is printable).
pub open spec fn shown_as_is(c: char) -> bool {
    (0x20 <= (c as u32) <= 0x7e && c != '"' && c != '\\') || (0xa1 <= (c as u32) <= 0xff && (c as u32)
        != 0xad)
}

/// Whether `c` is a control character (below U+0020, or from U+007F to U+009F) or the no-break
/// space U+00A0: `Debug` shows these, but for `\0 \t \r \n`, as a `\u{..}` escape, since
/// none of them is printable.
pub open spec fn shown_as_code(c: char) -> bool {
    (c as u32) < 0x20 || 0x7f <= (c as u32) <= 0xa0
}

/// The lowercase hexadecimal digit of value `d`, for `0 <= d < 16`.
pub open spec fn hex_digit(d: int) -> char {
    seq!['0', '1', '2', '3', '4', '5', '6', '7', '8', '9', 'a', 'b', 'c', 'd', 'e', 'f'][d]
}

/// The value of the lowercase hexadecimal digit `c`.
pub open spec fn hex_digit_value(c: char) -> int {
    if '0' <= c <= '9' {
        c as int - '0' as int
    } else {
        c as int - 'a' as int + 10
    }
}

/// The value of the hexadecimal digits `digits`, most significant first.
pub open spec fn hex_value(digits: Seq<char>) -> int
    decreases digits.len(),
{
    if digits.len() == 0 {
        0
    } else {
        16 * hex_value(digits.drop_last()) + hex_digit_value(digits.last())
    }
}

/// The `\u{..}` escape of the character code `code`, below 0x100: the code in lowercase
/// hexadecimal without leading zeros.
pub open spec fn unicode_escape(code: int) -> Seq<char> {
    seq!['\\', 'u', '{'] + (if code < 16 {
        seq![hex_digit(code)]
    } else {
        seq![hex_digit(code / 16), hex_digit(code % 16)]
    }) + seq!['}']
}

/// How `Debug` shows the character `c` inside a string, for the characters whose showing does
/// not depend on Unicode's property tables (`None` for the others): `\0 \t \r \n \\ "` as a
/// backslash escape, the characters `shown_as_code` as a `\u{..}` escape of their code, the
/// characters `shown_as_is` as themselves.
pub open spec fn char_debug(c: char) -> Option<Seq<char>> {
    if c == '\0' {
        Some(seq!['\\', '0'])
    } else if c == '\t' {
        Some(seq!['\\', 't'])
    } else if c == '\r' {
        Some(seq!['\\', 'r'])
    } else if c == '\n' {
        Some(seq!['\\', 'n'])
    } else if c == '\\' {
        Some(seq!['\\', '\\'])
    } else if c == '"' {
        Some(seq!['\\', '"'])
    } else if shown_as_code(c) {
        Some(unicode_escape(c as u32 as int))
    } else if shown_as_is(c) {
        Some(seq![c])
    } else {
        None
    }
}

/// How `Debug` shows the characters of `s` between the quotes, when `char_debug` gives the
/// showing of each of them: their showings one after the other.
pub open spec fn chars_debug(s: Seq<char>) -> Option<Seq<char>>
    decreases s.len(),
{
    if s.len() == 0 {
        Some(Seq::empty())
    } else {
        match (chars_debug(s.drop_last()), char_debug(s.last())) {
            (Some(front), Some(last)) => Some(front + last),
            _ => None,
        }
    }
}

/// How `Debug` shows the string `name`: in double quotes, each character as `char_debug` gives
/// it, where it gives every one; otherwise as `format!("{:?}")` renders it.
pub open spec fn name_debug(name: Seq<char>) -> Seq<char> {
    match chars_debug(name) {
        Some(body) => seq!['"'] + body + seq!['"'],
        None => str_debug(name),
    }
}

/// The debug text of a worker named `name`, holding a function or not.
pub open spec fn worker_debug_text(name: Seq<char>, has_function: bool) -> Seq<char> {
    "ThreadWorker { name: "@ + name_debug(name) + ", will_be_execute_function: "@ + (if has_function {
        function_debug_text()
    } else {
        "\"None\""@
    }) + " }"@
}

/// Once `chars_debug` fails on a prefix of `s`, it fails on every longer prefix.
proof fn lemma_chars_debug_prefix(s: Seq<char>, i: int, j: int)
    requires
        0 <= i <= j <= s.len(),
        chars_debug(s.subrange(0, i)) is None,
    ensures
        chars_debug(s.subrange(0, j)) is None,
    decreases j - i,
{
    if i < j {
        lemma_chars_debug_prefix(s, i, j - 1);
        assert(s.subrange(0, j).drop_last() =~= s.subrange(0, j - 1));
    }
}

/// `Debug` shows a string made of printable ASCII characters other than `"` and `\` (the single
/// quote included) and of Latin-1 characters from U+00A1 to U+00FF other than U+00AD (such as
/// `é`) as that same string in double quotes: nothing of it is escaped, dropped or added.
pub proof fn law_plain_names_shown_verbatim(name: Seq<char>)
    requires
        forall|i: int|
            0 <= i < name.len() ==> {
                let code = #[trigger] name[i] as u32;
                (0x20 <= code <= 0x7e && code != 0x22 && code != 0x5c) || (0xa1 <= code <= 0xff
                    && code != 0xad)
            },
    ensures
        chars_debug(name) == Some(name),
        name_debug(name) == seq!['"'] + name + seq!['"'],
    decreases name.len(),
{
    if name.len() > 0 {
        let front = name.drop_last();
        assert forall|i: int| 0 <= i < front.len() implies {
            let code = #[trigger] front[i] as u32;
            (0x20 <= code <= 0x7e && code != 0x22 && code != 0x5c) || (0xa1 <= code <= 0xff && code
                != 0xad)
        } by {
            assert(front[i] == name[i]);
        }
        law_plain_names_shown_verbatim(front);
        let last = name[name.len() - 1];
        assert((0x20 <= last as u32 <= 0x7e && last as u32 != 0x22 && last as u32 != 0x5c) || (0xa1
            <= last as u32 <= 0xff && last as u32 != 0xad));
        assert(char_debug(last) == Some(seq![last]));
        assert(front + seq![name.last()] =~= name);
    }
}

/// `Debug` escapes the backslash, the double quote and the characters `\0 \t \r \n` inside a
/// string with a backslash, and shows the single quote as it is.
pub proof fn law_special_characters_escaped(c: char)
    ensures
        c == '"' ==> char_debug(c) == Some(seq!['\\', '"']),
        c == '\\' ==> char_debug(c) == Some(seq!['\\', '\\']),
        c == '\n' ==> char_debug(c) == Some(seq!['\\', 'n']),
        c == '\r' ==> char_debug(c) == Some(seq!['\\', 'r']),
        c == '\t' ==> char_debug(c) == Some(seq!['\\', 't']),
        c == '\0' ==> char_debug(c) == Some(seq!['\\', '0']),
        c == '\'' ==> char_debug(c) == Some(seq!['\'']),
{
}

/// The showing of two strings one after the other is the showing of the first followed by that
/// of the second; it fails exactly when one of them fails.
pub proof fn law_chars_debug_concatenates(a: Seq<char>, b: Seq<char>)
    ensures
        chars_debug(a + b) == match (chars_debug(a), chars_debug(b)) {
            (Some(x), Some(y)) => Some(x + y),
            _ => None::<Seq<char>>,
        },
    decreases b.len(),
{
    if b.len() == 0 {
        assert(a + b =~= a);
        if chars_debug(a) is Some {
            assert(chars_debug(a)->0 + Seq::<char>::empty() =~= chars_debug(a)->0);
        }
    } else {
        let front = b.drop_last();
        law_chars_debug_concatenates(a, front);
        assert((a + b).drop_last() =~= a + front);
        assert((a + b).last() == b.last());
        match (chars_debug(a), chars_debug(front), char_debug(b.last())) {
            (Some(x), Some(y), Some(z)) => {
                assert(x + y + z =~= x + (y + z));
            },
            _ => {},
        }
    }
}

/// Each hexadecimal digit reads back as the value it was written for.
proof fn lemma_hex_digit_value(d: int)
    requires
        0 <= d < 16,
    ensures
        hex_digit_value(hex_digit(d)) == d,
        d > 0 ==> hex_digit(d) != '0',
{
    let digits = seq!['0', '1', '2', '3', '4', '5', '6', '7', '8', '9', 'a', 'b', 'c', 'd', 'e', 'f'];
    assert(digits[0] == '0' && digits[1] == '1' && digits[2] == '2' && digits[3] == '3');
    assert(digits[4] == '4' && digits[5] == '5' && digits[6] == '6' && digits[7] == '7');
    assert(digits[8] == '8' && digits[9] == '9' && digits[10] == 'a' && digits[11] == 'b');
    assert(digits[12] == 'c' && digits[13] == 'd' && digits[14] == 'e' && digits[15] == 'f');
}

/// `Debug` shows a control character (or the no-break space) inside a string as `\u{`, the
/// lowercase hexadecimal digits of its code without leading zeros, and `}`: the digits read back
/// as the character's code.
pub proof fn law_control_escape_names_its_code(c: char)
    requires
        shown_as_code(c),
        c != '\0' && c != '\t' && c != '\r' && c != '\n',
    ensures
        char_debug(c) matches Some(e) && {
            let digits = e.subrange(3, e.len() - 1);
            &&& e.len() >= 5
            &&& e.subrange(0, 3) == seq!['\\', 'u', '{']
            &&& e.last() == '}'
            &&& hex_value(digits) == c as u32
            &&& (digits.len() == 1 || digits[0] != '0')
        },
{
    let code = c as u32 as int;
    let e = unicode_escape(code);
    assert(char_debug(c) == Some(e));
    if code < 16 {
        lemma_hex_digit_value(code);
        let digits = e.subrange(3, e.len() - 1);
        assert(digits =~= seq![hex_digit(code)]);
        assert(digits.drop_last() =~= Seq::<char>::empty());
        assert(hex_value(Seq::<char>::empty()) == 0);
        assert(digits.last() == hex_digit(code));
        assert(hex_value(digits) == code);
        assert(e.subrange(0, 3) =~= seq!['\\', 'u', '{']);
        assert(e.len() == 5);
        assert(e.last() == '}');
    } else {
        lemma_hex_digit_value(code / 16);
        lemma_hex_digit_value(code % 16);
        let digits = e.subrange(3, e.len() - 1);
        assert(digits =~= seq![hex_digit(code / 16), hex_digit(code % 16)]);
        assert(digits.drop_last() =~= seq![hex_digit(code / 16)]);
        assert(digits.drop_last().drop_last() =~= Seq::<char>::empty());
        assert(hex_value(Seq::<char>::empty()) == 0);
        assert(digits.drop_last().last() == hex_digit(code / 16));
        assert(digits.last() == hex_digit(code % 16));
        assert(hex_value(digits.drop_last()) == code / 16);
        assert(hex_value(digits) == 16 * (code / 16) + code % 16);
        assert(e.subrange(0, 3) =~= seq!['\\', 'u', '{']);
        assert(e.len() == 6);
        assert(e.last() == '}');
    }
}

/// Appends the `\u{..}` escape of the character code `code` to `body`.
fn append_unicode_escape(body: &mut String, code: u32)
    requires
        code < 0x100,
    ensures
        final(body)@ == old(body)@ + unicode_escape(code as int),
{
    let digits = "0123456789abcdef";
    proof {
        reveal_strlit("0123456789abcdef");
        reveal_strlit("\\u{");
        reveal_strlit("}");
    }
    let ghost start = body@;
    body.append("\\u{");
    if code >= 16 {
        let high = (code / 16) as usize;
        let shown = digits.substring_char(high, high + 1);
        assert(shown@ =~= seq![hex_digit(high as int)]);
        body.append(shown);
    }
    let low = (code % 16) as usize;
    let shown = digits.substring_char(low, low + 1);
    assert(shown@ =~= seq![hex_digit(low as int)]);
    body.append(shown);
    body.append("}");
    assert(body@ =~= start + unicode_escape(code as int));
}

/// The `Debug` showing of `text` between double quotes, when `char_debug` gives the showing of
/// each of its characters; `None` when it does not.
fn debug_known(text: &str) -> (shown: Option<String>)
    ensures
        match shown {
            Some(s) => chars_debug(text@) matches Some(body) && s@ == seq!['"'] + body + seq!['"'],
            None => chars_debug(text@) is None,
        },
{
    let n = text.unicode_len();
    let mut body = String::new();
    let mut i: usize = 0;
    assert(text@.subrange(0, 0) =~= Seq::<char>::empty());
    while i < n
        invariant
            n == text@.len(),
            i <= n,
            chars_debug(text@.subrange(0, i as int)) == Some(body@),
        decreases n - i,
    {
        let c = text.get_char(i);
        let ghost prefix = text@.subrange(0, i + 1);
        assert(prefix.drop_last() =~= text@.subrange(0, i as int));
        assert(prefix.last() == c);
        let code = c as u32;
        let ghost before = body@;
        proof {
            reveal_strlit("\\0");
            reveal_strlit("\\t");
            reveal_strlit("\\r");
            reveal_strlit("\\n");
            reveal_strlit("\\\\");
            reveal_strlit("\\\"");
        }
        if c == '\0' {
            body.append("\\0");
        } else if c == '\t' {
            body.append("\\t");
        } else if c == '\r' {
            body.append("\\r");
        } else if c == '\n' {
            body.append("\\n");
        } else if c == '\\' {
            body.append("\\\\");
        } else if c == '"' {
            body.append("\\\"");
        } else if code < 0x20 || (0x7f <= code && code <= 0xa0) {
            append_unicode_escape(&mut body, code);
        } else if (0x20 <= code && code <= 0x7e) || (0xa1 <= code && code <= 0xff && code != 0xad) {
            let shown = text.substring_char(i, i + 1);
            assert(shown@ =~= seq![c]);
            body.append(shown);
        } else {
            proof {
                lemma_chars_debug_prefix(text@, i + 1, n as int);
                assert(text@.subrange(0, n as int) =~= text@);
            }
            return None;
        }
        assert(body@ =~= before + char_debug(c)->0);
        i = i + 1;
    }
    assert(text@.subrange(0, n as int) =~= text@);
    proof {
        reveal_strlit("\"");
    }
    let mut quoted = String::from_str("\"");
    quoted.append(body.as_str());
    quoted.append("\"");
    Some(quoted)
}

/// What starting a worker by name comes to.
#[derive(Debug)]
pub enum WorkerStart<F> {
    /// The worker was found and this is its function, to be run.
    Launch(F),
    /// The worker was found but has no function to run.
    NothingToRun,
    /// No worker is stored under the name.
    NotFound,
    /// There is no repository to look the worker up in.
    RepositoryMissing,
}

impl<F> ThreadWorker<F> {
    /// The worker's name.
    pub closed spec fn worker_name(&self) -> Seq<char> {
        self.name@
    }

    /// The worker's function, if it has one.
    pub closed spec fn function(&self) -> Option<F> {
        self.will_be_execute_function
    }

    /// A worker named `name` that runs `will_be_execute_function`.
    pub fn new(name: &str, will_be_execute_function: Option<F>) -> (worker: Self)
        ensures
            worker.worker_name() == name@,
            worker.function() == will_be_execute_function,
    {
        ThreadWorker { name: name.to_owned(), will_be_execute_function }
    }

    /// The worker's name.
    pub fn name(&self) -> (name: &str)
        ensures
            name@ == self.worker_name(),
    {
        self.name.as_str()
    }

    /// The worker's name, as the string the worker stands for.
    pub fn as_ref(&self) -> (name: &str)
        ensures
            name@ == self.worker_name(),
    {
        self.name.as_str()
    }

    /// A reference to the worker's function, if it has one.
    pub fn get_will_be_execute_function_ref(&self) -> (function: Option<&F>)
        ensures
            match function {
                Some(f) => self.function() == Some(*f),
                None => self.function() is None,
            },
    {
        match &self.will_be_execute_function {
            Some(f) => Some(f),
            None => None,
        }
    }

    /// The worker as its debug text shows it: its name, escaped, and whether it holds a function.
    pub fn debug_text(&self) -> (text: String)
        ensures
            text@ == worker_debug_text(self.worker_name(), self.function() is Some),
    {
        let mut text = String::from_str("ThreadWorker { name: ");
        let name = match debug_known(self.name.as_str()) {
            Some(shown) => shown,
            None => debug_str(self.name.as_str()),
        };
        text.append(name.as_str());
        text.append(", will_be_execute_function: ");
        match &self.will_be_execute_function {
            Some(_) => text.append("\"Some(Arc<Mutex<Box<dyn Fn() -> Pin<Box<dyn Future<Output = ()>>> + Send>>>)\""),
            None => text.append("\"None\""),
        }
        text.append(" }");
        text
    }

    /// Takes the worker's function out, leaving the worker without one.
    pub fn take_function(&mut self) -> (function: Option<F>)
        ensures
            function == old(self).function(),
            final(self).function() is None,
            final(self).worker_name() == old(self).worker_name(),
    {
        let mut taken = None;
        std::mem::swap(&mut taken, &mut self.will_be_execute_function);
        taken
    }
}

impl<F: Clone> ThreadWorker<F> {
    /// A clone of the worker's function, if it has one.
    pub fn get_will_be_execute_function(&self) -> (function: Option<F>)
        ensures
            function is Some <==> self.function() is Some,
            function matches Some(f) ==> cloned(self.function()->0, f),
    {
        match &self.will_be_execute_function {
            Some(f) => Some(f.clone()),
            None => None,
        }
    }

    /// A copy of the worker: the same name, and a clone of its function.
    pub fn duplicate(&self) -> (worker: Self)
        ensures
            worker.worker_name() == self.worker_name(),
            worker.function() is Some <==> self.function() is Some,
            worker.function() matches Some(f) ==> cloned(self.function()->0, f),
    {
        ThreadWorker {
            name: self.name.clone(),
            will_be_execute_function: self.get_will_be_execute_function(),
        }
    }
}

/// When `==` holds between two workers: their names are equal and neither holds a function.
pub open spec fn workers_equal<F>(a: ThreadWorker<F>, b: ThreadWorker<F>) -> bool {
    a.worker_name() == b.worker_name() && a.function() is None && b.function() is None
}

/// Two workers are equal when their names are equal and neither has a function: a worker that
/// holds a function is never equal to another worker, nor to itself.
impl<F> PartialEq for ThreadWorker<F> {
    fn eq(&self, other: &Self) -> (equal: bool) {
        self.name == other.name && self.will_be_execute_function.is_none()
            && other.will_be_execute_function.is_none()
    }
}

impl<F> PartialEqSpecImpl for ThreadWorker<F> {
    open spec fn obeys_eq_spec() -> bool {
        true
    }

    open spec fn eq_spec(&self, other: &Self) -> bool {
        workers_equal(*self, *other)
    }
}


/// A worker that holds a function is equal to no worker, itself included; workers without a
/// function are equal exactly when their names are.
pub proof fn law_worker_equality<F>(a: ThreadWorker<F>, b: ThreadWorker<F>)
    ensures
        vstd::std_specs::cmp::PartialEqSpec::eq_spec(&a, &b) <==> (a.worker_name() =~= b.worker_name()
            && a.function() is None && b.function() is None),
        vstd::std_specs::cmp::PartialEqSpec::eq_spec(&a, &b) == vstd::std_specs::cmp::PartialEqSpec::eq_spec(&b, &a),
        a.function() is Some ==> !vstd::std_specs::cmp::PartialEqSpec::eq_spec(&a, &a),
{
}

} // verus!
