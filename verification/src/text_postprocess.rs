//! Post-processing of dictated text: the speech language, the case of the
//! first letter, spoken numbers ("one two three" -> "123") and spoken symbols
//! ("at" -> "@").

use vstd::prelude::*;
use crate::text_chars::{
    ascii_lower, ascii_lower_char, chars_of, class_pred, find_runs_from, in_class, is_word_letter,
    push_range, push_str_chars, runs, runs_from, slice_chars, span_ints, string_from_chars,
    CharClass,
};

verus! {

/// The language whose spoken forms the passes recognise.
#[derive(Clone, Copy, Debug, PartialEq, Eq, Structural)]
pub enum SpeechLanguage {
    English,
    Polish,
}

/// `s`, ASCII-lower-cased, starts with `pl`.
pub open spec fn starts_with_pl(s: Seq<char>) -> bool {
    s.len() >= 2 && ascii_lower(s[0]) == 'p' && ascii_lower(s[1]) == 'l'
}

/// `s`, ASCII-lower-cased, starts with `en`.
pub open spec fn starts_with_en(s: Seq<char>) -> bool {
    s.len() >= 2 && ascii_lower(s[0]) == 'e' && ascii_lower(s[1]) == 'n'
}

/// The selected transcription language decides when it names Polish or
/// English; otherwise the application language decides, English by default.
pub open spec fn speech_language_for(selected: Seq<char>, app: Seq<char>) -> SpeechLanguage {
    if starts_with_pl(selected) {
        SpeechLanguage::Polish
    } else if starts_with_en(selected) {
        SpeechLanguage::English
    } else if starts_with_pl(app) {
        SpeechLanguage::Polish
    } else {
        SpeechLanguage::English
    }
}

fn starts_with_pair(s: &Vec<char>, a: char, b: char) -> (res: bool)
    ensures
        res == (s@.len() >= 2 && ascii_lower(s@[0]) == a && ascii_lower(s@[1]) == b),
{
    s.len() >= 2 && ascii_lower_char(s[0]) == a && ascii_lower_char(s[1]) == b
}

pub fn resolve_speech_language(selected_language: &str, app_language: &str) -> (res:
    SpeechLanguage)
    ensures
        res == speech_language_for(selected_language@, app_language@),
{
    let selected = chars_of(selected_language);
    if starts_with_pair(&selected, 'p', 'l') {
        return SpeechLanguage::Polish;
    }
    if starts_with_pair(&selected, 'e', 'n') {
        return SpeechLanguage::English;
    }
    let app = chars_of(app_language);
    if starts_with_pair(&app, 'p', 'l') {
        SpeechLanguage::Polish
    } else {
        SpeechLanguage::English
    }
}

/// The characters that `char::to_uppercase` yields for `c` (Unicode case
/// mapping, possibly more than one character).
pub uninterp spec fn upper_case_chars(c: char) -> Seq<char>;

/// The characters that `char::to_lowercase` yields for `c`.
pub uninterp spec fn lower_case_chars(c: char) -> Seq<char>;

/// Collects `char::to_uppercase(c)` of std into a `String`. The contract
/// names the result and states only the documented ASCII case: an ASCII
/// letter maps to its ASCII upper-case form, any other ASCII character to
/// itself.
#[verifier::external_body]
fn char_upper_case(c: char) -> (res: String)
    ensures
        res@ == upper_case_chars(c),
        (c as u32) < 128 && 'a' <= c <= 'z' ==> res@ == seq![((c as u32) - 32) as char],
        (c as u32) < 128 && !('a' <= c <= 'z') ==> res@ == seq![c],
{
    c.to_uppercase().collect()
}

/// Collects `char::to_lowercase(c)` of std into a `String`. As for the upper
/// case, only the ASCII case is stated beside the name.
#[verifier::external_body]
fn char_lower_case(c: char) -> (res: String)
    ensures
        res@ == lower_case_chars(c),
        (c as u32) < 128 ==> res@ == seq![ascii_lower(c)],
{
    c.to_lowercase().collect()
}

/// `text` with its first character upper-cased (`capitalize`) or
/// lower-cased, the rest unchanged; the empty text stays empty.
pub open spec fn first_letter_adjusted(text: Seq<char>, capitalize: bool) -> Seq<char> {
    if text.len() == 0 {
        Seq::empty()
    } else if capitalize {
        upper_case_chars(text[0]) + text.drop_first()
    } else {
        lower_case_chars(text[0]) + text.drop_first()
    }
}

/// The ASCII upper-case form of `c`: `a` to `z` become `A` to `Z`, every
/// other character stays.
pub open spec fn ascii_upper(c: char) -> char {
    if 'a' <= c <= 'z' {
        ((c as u32) - 32) as char
    } else {
        c
    }
}

/// The text with its first character's case adjusted. For an ASCII first
/// character the result is spelled out: that character in ASCII upper or
/// lower case, followed by the rest of the text.
pub fn adjust_first_letter_case(text: &str, capitalize: bool) -> (res: String)
    ensures
        res@ == first_letter_adjusted(text@, capitalize),
        text@.len() > 0 && (text@[0] as u32) < 128 ==> res@ == seq![
            if capitalize {
                ascii_upper(text@[0])
            } else {
                ascii_lower(text@[0])
            },
        ] + text@.drop_first(),
{
    let chars = chars_of(text);
    if chars.len() == 0 {
        return string_from_chars(&Vec::new());
    }
    let replacement = if capitalize {
        char_upper_case(chars[0])
    } else {
        char_lower_case(chars[0])
    };
    let mut out: Vec<char> = Vec::new();
    push_str_chars(&mut out, replacement.as_str());
    push_range(&mut out, &chars, 1, chars.len());
    proof {
        assert(chars@.subrange(1, chars@.len() as int) =~= chars@.drop_first());
        assert(Seq::<char>::empty() + replacement@ =~= replacement@);
    }
    string_from_chars(&out)
}

/// The folding applied before words are compared: Polish letters with
/// diacritics lose them, ASCII letters are lower-cased, everything else is
/// kept.
pub open spec fn normalize_char(c: char) -> char {
    if c == 'ą' || c == 'Ą' {
        'a'
    } else if c == 'ć' || c == 'Ć' {
        'c'
    } else if c == 'ę' || c == 'Ę' {
        'e'
    } else if c == 'ł' || c == 'Ł' {
        'l'
    } else if c == 'ń' || c == 'Ń' {
        'n'
    } else if c == 'ó' || c == 'Ó' {
        'o'
    } else if c == 'ś' || c == 'Ś' {
        's'
    } else if c == 'ź' || c == 'Ź' || c == 'ż' || c == 'Ż' {
        'z'
    } else if (c as u32) < 128 {
        ascii_lower(c)
    } else {
        c
    }
}

pub open spec fn normalize(s: Seq<char>) -> Seq<char> {
    s.map_values(|c: char| normalize_char(c))
}

/// Two words are the same spoken word when they normalise alike.
pub open spec fn tokens_equal(a: Seq<char>, b: Seq<char>) -> bool {
    normalize(a) == normalize(b)
}

fn normalize_char_exec(c: char) -> (res: char)
    ensures
        res == normalize_char(c),
{
    if c == 'ą' || c == 'Ą' {
        'a'
    } else if c == 'ć' || c == 'Ć' {
        'c'
    } else if c == 'ę' || c == 'Ę' {
        'e'
    } else if c == 'ł' || c == 'Ł' {
        'l'
    } else if c == 'ń' || c == 'Ń' {
        'n'
    } else if c == 'ó' || c == 'Ó' {
        'o'
    } else if c == 'ś' || c == 'Ś' {
        's'
    } else if c == 'ź' || c == 'Ź' || c == 'ż' || c == 'Ż' {
        'z'
    } else if (c as u32) < 128 {
        ascii_lower_char(c)
    } else {
        c
    }
}

pub fn normalize_token(word: &Vec<char>) -> (res: Vec<char>)
    ensures
        res@ == normalize(word@),
{
    let mut res: Vec<char> = Vec::new();
    let mut i: usize = 0;
    while i < word.len()
        invariant
            0 <= i <= word@.len(),
            res@ == normalize(word@.subrange(0, i as int)),
        decreases word@.len() - i,
    {
        res.push(normalize_char_exec(word[i]));
        i = i + 1;
        assert(normalize(word@.subrange(0, i as int)) =~= normalize(
            word@.subrange(0, (i - 1) as int),
        ).push(normalize_char(word@[i - 1])));
    }
    assert(word@.subrange(0, word@.len() as int) =~= word@);
    res
}

pub fn tokens_equal_exec(a: &Vec<char>, b: &Vec<char>) -> (res: bool)
    ensures
        res == tokens_equal(a@, b@),
{
    let na = normalize_token(a);
    let nb = normalize_token(b);
    crate::text_chars::chars_equal(&na, &nb)
}

pub const ENGLISH_NUMBER_WORDS: [(&'static str, u64); 31] = [
    ("zero", 0),
    ("oh", 0),
    ("one", 1),
    ("two", 2),
    ("three", 3),
    ("four", 4),
    ("five", 5),
    ("six", 6),
    ("seven", 7),
    ("eight", 8),
    ("nine", 9),
    ("ten", 10),
    ("eleven", 11),
    ("twelve", 12),
    ("thirteen", 13),
    ("fourteen", 14),
    ("fifteen", 15),
    ("sixteen", 16),
    ("seventeen", 17),
    ("eighteen", 18),
    ("nineteen", 19),
    ("twenty", 20),
    ("thirty", 30),
    ("forty", 40),
    ("fifty", 50),
    ("sixty", 60),
    ("seventy", 70),
    ("eighty", 80),
    ("ninety", 90),
    ("hundred", 100),
    ("thousand", 1000),
];

pub const POLISH_NUMBER_WORDS: [(&'static str, u64); 67] = [
    ("zero", 0),
    ("jeden", 1),
    ("jedna", 1),
    ("jedno", 1),
    ("dwa", 2),
    ("dwie", 2),
    ("trzy", 3),
    ("cztery", 4),
    ("piec", 5),
    ("pięć", 5),
    ("szesc", 6),
    ("sześć", 6),
    ("siedem", 7),
    ("osiem", 8),
    ("dziewiec", 9),
    ("dziewięć", 9),
    ("dziesiec", 10),
    ("dziesięć", 10),
    ("jedenascie", 11),
    ("jedenaście", 11),
    ("dwanascie", 12),
    ("dwanaście", 12),
    ("trzynascie", 13),
    ("trzynaście", 13),
    ("czternascie", 14),
    ("czternaście", 14),
    ("pietnascie", 15),
    ("piętnaście", 15),
    ("szesnascie", 16),
    ("szesnaście", 16),
    ("siedemnascie", 17),
    ("siedemnaście", 17),
    ("osiemnascie", 18),
    ("osiemnaście", 18),
    ("dziewietnascie", 19),
    ("dziewiętnaście", 19),
    ("dwadziescia", 20),
    ("dwadzieścia", 20),
    ("trzydziesci", 30),
    ("trzydzieści", 30),
    ("czterdziesci", 40),
    ("czterdzieści", 40),
    ("piecdziesiat", 50),
    ("pięćdziesiąt", 50),
    ("szescdziesiat", 60),
    ("sześćdziesiąt", 60),
    ("siedemdziesiat", 70),
    ("siedemdziesiąt", 70),
    ("osiemdziesiat", 80),
    ("osiemdziesiąt", 80),
    ("dziewiecdziesiat", 90),
    ("dziewięćdziesiąt", 90),
    ("sto", 100),
    ("dwiescie", 200),
    ("dwieście", 200),
    ("trzysta", 300),
    ("czterysta", 400),
    ("piecset", 500),
    ("pięćset", 500),
    ("szescset", 600),
    ("sześćset", 600),
    ("siedemset", 700),
    ("osiemset", 800),
    ("dziewiecset", 900),
    ("dziewięćset", 900),
    ("tysiac", 1000),
    ("tysiąc", 1000),
];

pub const ENGLISH_SYMBOLS: [(&'static str, &'static str); 95] = [
    ("close square bracket", "]"),
    ("right square bracket", "]"),
    ("opening parenthesis", "("),
    ("closing parenthesis", ")"),
    ("open square bracket", "["),
    ("left square bracket", "["),
    ("right angle bracket", ">"),
    ("close angle bracket", ">"),
    ("left angle bracket", "<"),
    ("open angle bracket", "<"),
    ("exclamation point", "!"),
    ("close parenthesis", ")"),
    ("right parenthesis", ")"),
    ("close curly brace", "}"),
    ("right curly brace", "}"),
    ("greater than sign", ">"),
    ("exclamation mark", "!"),
    ("open parenthesis", "("),
    ("left parenthesis", "("),
    ("open curly brace", "{"),
    ("left curly brace", "{"),
    ("opening bracket", "["),
    ("closing bracket", "]"),
    ("quotation mark", "\""),
    ("less than sign", "<"),
    ("close bracket", "]"),
    ("right bracket", "]"),
    ("opening brace", "{"),
    ("closing brace", "}"),
    ("vertical line", "|"),
    ("question mark", "?"),
    ("forward slash", "/"),
    ("percent sign", "%"),
    ("open bracket", "["),
    ("left bracket", "["),
    ("vertical bar", "|"),
    ("single quote", "'"),
    ("double quote", "\""),
    ("greater than", ">"),
    ("grave accent", "`"),
    ("exclamation", "!"),
    ("number sign", "#"),
    ("dollar sign", "$"),
    ("close paren", ")"),
    ("right paren", ")"),
    ("equals sign", "="),
    ("close brace", "}"),
    ("right brace", "}"),
    ("pound sign", "#"),
    ("circumflex", "^"),
    ("open paren", "("),
    ("left paren", "("),
    ("underscore", "_"),
    ("equal sign", "="),
    ("open brace", "{"),
    ("left brace", "{"),
    ("back slash", "\\"),
    ("apostrophe", "'"),
    ("at symbol", "@"),
    ("ampersand", "&"),
    ("plus sign", "+"),
    ("backslash", "\\"),
    ("semicolon", ";"),
    ("less than", "<"),
    ("full stop", "."),
    ("back tick", "`"),
    ("hash tag", "#"),
    ("asterisk", "*"),
    ("backtick", "`"),
    ("at sign", "@"),
    ("hashtag", "#"),
    ("percent", "%"),
    ("dollar", "$"),
    ("hyphen", "-"),
    ("equals", "="),
    ("period", "."),
    ("caret", "^"),
    ("minus", "-"),
    ("equal", "="),
    ("colon", ":"),
    ("quote", "\""),
    ("comma", ","),
    ("point", "."),
    ("slash", "/"),
    ("tilde", "~"),
    ("grave", "`"),
    ("hash", "#"),
    ("star", "*"),
    ("dash", "-"),
    ("plus", "+"),
    ("pipe", "|"),
    ("hat", "^"),
    ("amp", "&"),
    ("dot", "."),
    ("at", "@"),
];

pub const POLISH_SYMBOLS: [(&'static str, &'static str); 91] = [
    ("nawias kwadratowy otwierający", "["),
    ("nawias kwadratowy zamykający", "]"),
    ("nawias kwadratowy zamknięty", "]"),
    ("nawias klamrowy otwierający", "{"),
    ("nawias kwadratowy zamkniety", "]"),
    ("nawias klamrowy zamykający", "}"),
    ("nawias klamrowy zamknięty", "}"),
    ("nawias kwadratowy otwarty", "["),
    ("nawias klamrowy zamkniety", "}"),
    ("nawias kwadratowy prawy", "]"),
    ("nawias klamrowy otwarty", "{"),
    ("nawias kwadratowy lewy", "["),
    ("nawias klamrowy prawy", "}"),
    ("nawias klamrowy lewy", "{"),
    ("nawias otwierający", "("),
    ("cudzysłów otwarty", "\""),
    ("nawias zamykający", ")"),
    ("nawias zamknięty", ")"),
    ("ukośnik odwrotny", "\\"),
    ("znak mniejszości", "<"),
    ("znak większości", ">"),
    ("nawias zamkniety", ")"),
    ("ukosnik odwrotny", "\\"),
    ("znak mniejszosci", "<"),
    ("kropka na końcu", "."),
    ("znak wiekszosci", ">"),
    ("nawias otwarty", "("),
    ("pionowa kreska", "|"),
    ("kreska pionowa", "|"),
    ("znak zapytania", "?"),
    ("znak procenta", "%"),
    ("daszek szybki", "^"),
    ("podkreślenie", "_"),
    ("mniejsze niż", "<"),
    ("większe niż", ">"),
    ("nawias prawy", ")"),
    ("podkreslenie", "_"),
    ("mniejsze niz", "<"),
    ("znak małpy", "@"),
    ("znak dolara", "$"),
    ("nawias lewy", "("),
    ("równa się", "="),
    ("cudzysłów", "\""),
    ("wieksze niz", ">"),
    ("wykrzyknik", "!"),
    ("zykadełko", "^"),
    ("underscore", "_"),
    ("zykadelko", "^"),
    ("ampersand", "&"),
    ("rowna sie", "="),
    ("znak plus", "+"),
    ("backslash", "\\"),
    ("dwukropek", ":"),
    ("cudzyslow", "\""),
    ("przecinek", ","),
    ("krzyżyk", "#"),
    ("gwiazdka", "*"),
    ("asterisk", "*"),
    ("myślnik", "-"),
    ("średnik", ";"),
    ("apostrof", "'"),
    ("mniejsze", "<"),
    ("większe", ">"),
    ("pytajnik", "?"),
    ("ukośnik", "/"),
    ("backtick", "`"),
    ("wykrzyk", "!"),
    ("krzyzyk", "#"),
    ("hasztag", "#"),
    ("procent", "%"),
    ("gwiazda", "*"),
    ("myslnik", "-"),
    ("srednik", ";"),
    ("wieksze", ">"),
    ("ukosnik", "/"),
    ("małpa", "@"),
    ("daszek", "^"),
    ("kreska", "-"),
    ("równa", "="),
    ("kropka", "."),
    ("grawis", "`"),
    ("malpa", "@"),
    ("dolar", "$"),
    ("minus", "-"),
    ("rowna", "="),
    ("slash", "/"),
    ("tylda", "~"),
    ("hash", "#"),
    ("plus", "+"),
    ("pipe", "|"),
    ("at", "@"),
];

/// The number-word table of a language.
pub open spec fn number_table(language: SpeechLanguage) -> Seq<(&'static str, u64)> {
    match language {
        SpeechLanguage::English => ENGLISH_NUMBER_WORDS@,
        SpeechLanguage::Polish => POLISH_NUMBER_WORDS@,
    }
}

/// The symbol table of a language.
pub open spec fn symbol_table(language: SpeechLanguage) -> Seq<(&'static str, &'static str)> {
    match language {
        SpeechLanguage::English => ENGLISH_SYMBOLS@,
        SpeechLanguage::Polish => POLISH_SYMBOLS@,
    }
}

pub fn english_number_words() -> (res: &'static [(&'static str, u64)])
    ensures
        res@ == ENGLISH_NUMBER_WORDS@,
{
    &ENGLISH_NUMBER_WORDS
}

pub fn polish_number_words() -> (res: &'static [(&'static str, u64)])
    ensures
        res@ == POLISH_NUMBER_WORDS@,
{
    &POLISH_NUMBER_WORDS
}

pub fn english_symbol_map() -> (res: &'static [(&'static str, &'static str)])
    ensures
        res@ == ENGLISH_SYMBOLS@,
{
    &ENGLISH_SYMBOLS
}

pub fn polish_symbol_map() -> (res: &'static [(&'static str, &'static str)])
    ensures
        res@ == POLISH_SYMBOLS@,
{
    &POLISH_SYMBOLS
}

pub fn symbol_mappings(language: SpeechLanguage) -> (res: &'static [(&'static str, &'static str)])
    ensures
        res@ == symbol_table(language),
{
    match language {
        SpeechLanguage::English => english_symbol_map(),
        SpeechLanguage::Polish => polish_symbol_map(),
    }
}

/// The value of the first entry of `table` (from index `j` on) whose word is
/// `key`.
pub open spec fn lookup_number_from(table: Seq<(&'static str, u64)>, key: Seq<char>, j: int) -> Option<u64>
    decreases table.len() - j,
{
    if j < 0 || j >= table.len() {
        None
    } else if table[j].0@ == key {
        Some(table[j].1)
    } else {
        lookup_number_from(table, key, j + 1)
    }
}

/// The number that a spoken word stands for, if any.
pub open spec fn number_value(word: Seq<char>, language: SpeechLanguage) -> Option<u64> {
    lookup_number_from(number_table(language), normalize(word), 0)
}

pub fn number_word_value(word: &Vec<char>, language: SpeechLanguage) -> (res: Option<u64>)
    ensures
        res == number_value(word@, language),
{
    let key = normalize_token(word);
    let table: &[(&'static str, u64)] = match language {
        SpeechLanguage::English => english_number_words(),
        SpeechLanguage::Polish => polish_number_words(),
    };
    let mut j: usize = 0;
    while j < table.len()
        invariant
            table@ == number_table(language),
            key@ == normalize(word@),
            0 <= j <= table@.len(),
            lookup_number_from(table@, key@, 0) == lookup_number_from(table@, key@, j as int),
        decreases table@.len() - j,
    {
        let entry = table[j];
        assert(entry == table@[j as int]);
        if crate::text_chars::str_equals_chars(entry.0, &key) {
            return Some(entry.1);
        }
        j = j + 1;
    }
    None
}

/// Every value of the phrase is a single digit (0 to 9).
pub open spec fn all_single_digits(vals: Seq<u64>) -> bool {
    forall|k: int| 0 <= k < vals.len() ==> vals[k] <= 9
}

/// The number written by the digits `vals`, most significant first.
pub open spec fn digits_value(vals: Seq<u64>) -> nat
    decreases vals.len(),
{
    if vals.len() == 0 {
        0
    } else {
        digits_value(vals.drop_last()) * 10 + vals.last() as nat
    }
}

/// The multiplier that a hundred or a thousand applies to: the pending
/// amount, or one when nothing is pending.
pub open spec fn scale_base(current: int) -> int {
    if current == 0 {
        1
    } else {
        current
    }
}

/// The `(total, current)` pair after reading the number words `vals`:
/// a thousand (or more) closes the pending amount into the total, a hundred
/// multiplies the pending amount, anything smaller is added to it.
pub open spec fn compound_state(vals: Seq<u64>) -> (int, int)
    decreases vals.len(),
{
    if vals.len() == 0 {
        (0, 0)
    } else {
        let prev = compound_state(vals.drop_last());
        let v = vals.last() as int;
        if v >= 1000 {
            (prev.0 + scale_base(prev.1) * v, 0)
        } else if v >= 100 {
            (prev.0, scale_base(prev.1) * v)
        } else {
            (prev.0, prev.1 + v)
        }
    }
}

/// The number that the compound phrase `vals` reads as.
pub open spec fn compound_value(vals: Seq<u64>) -> int {
    compound_state(vals).0 + compound_state(vals).1
}

/// Every intermediate total and pending amount fits in `u64`.
pub open spec fn compound_steps_fit(vals: Seq<u64>) -> bool
    decreases vals.len(),
{
    if vals.len() == 0 {
        true
    } else {
        compound_steps_fit(vals.drop_last()) && compound_state(vals).0 <= u64::MAX
            && compound_state(vals).1 <= u64::MAX
    }
}

/// Reading the compound phrase `vals` stays within `u64`.
pub open spec fn compound_fits(vals: Seq<u64>) -> bool {
    compound_steps_fit(vals) && compound_value(vals) <= u64::MAX
}

/// Evaluating the phrase `vals` would overflow `u64` arithmetic (where the
/// arithmetic of a debug build stops with a panic).
pub open spec fn phrase_overflows(vals: Seq<u64>) -> bool {
    vals.len() > 0 && !all_single_digits(vals) && !compound_fits(vals)
}

/// The number that a phrase of number words stands for: digits alone are
/// read one after the other ("one two three" is 123, which must fit in
/// `u64`), any other phrase is read as a compound number ("one hundred
/// twenty three" is 123).
pub open spec fn phrase_value(vals: Seq<u64>) -> Option<u64> {
    if vals.len() == 0 {
        None
    } else if all_single_digits(vals) {
        if digits_value(vals) <= u64::MAX {
            Some(digits_value(vals) as u64)
        } else {
            None
        }
    } else {
        Some(compound_value(vals) as u64)
    }
}

/// Digit words are read one after the other, zeros included: a single
/// digit word is its digit, and one more digit word at the end of a run of
/// digit words gives ten times the run's number plus that digit (so "one oh
/// one" is 101 and "one oh" is 10), as long as the result fits in `u64`.
pub proof fn lemma_digit_run_reading(vals: Seq<u64>, d: u64)
    requires
        d <= 9,
        all_single_digits(vals),
    ensures
        phrase_value(seq![d]) == Some(d),
        vals.len() > 0 && phrase_value(vals) is Some && 10 * (phrase_value(vals)->0) + d <= u64::MAX
            ==> phrase_value(vals.push(d)) == Some((10 * (phrase_value(vals)->0) + d) as u64),
        vals.len() > 0 && phrase_value(vals) is None ==> phrase_value(vals.push(d)) is None,
{
    let one = seq![d];
    assert(one.drop_last() =~= Seq::<u64>::empty());
    assert(digits_value(one.drop_last()) == 0);
    assert(digits_value(one) == d);
    assert(all_single_digits(one));
    let longer = vals.push(d);
    assert(longer.drop_last() =~= vals);
    assert(longer.last() == d);
    assert(all_single_digits(longer));
}

/// All words of `vals` are below `limit`.
pub open spec fn words_below(vals: Seq<u64>, limit: int) -> bool {
    forall|k: int| 0 <= k < vals.len() ==> (#[trigger] vals[k]) < limit
}

proof fn lemma_state_below(vals: Seq<u64>, limit: int)
    requires
        limit == 100 || limit == 1000,
        words_below(vals, limit),
    ensures
        compound_state(vals).0 == 0,
        compound_state(vals).1 == compound_value(vals),
    decreases vals.len(),
{
    if vals.len() > 0 {
        assert(words_below(vals.drop_last(), limit));
        lemma_state_below(vals.drop_last(), limit);
    }
}

proof fn lemma_state_after_close(p: Seq<u64>, q: Seq<u64>)
    requires
        compound_state(p).1 == 0,
    ensures
        compound_state(p + q) == (compound_state(p).0 + compound_state(q).0, compound_state(q).1),
    decreases q.len(),
{
    if q.len() == 0 {
        assert(p + q =~= p);
    } else {
        assert((p + q).drop_last() =~= p + q.drop_last());
        assert((p + q).last() == q.last());
        lemma_state_after_close(p, q.drop_last());
    }
}

/// How a compound number is read, word by word:
/// - a word below a hundred adds to the number (twenty three is 23);
/// - a hundred (or two hundred, ...) multiplies the words below a hundred
///   before it, one when there are none (two hundred is 200, hundred is 100);
/// - a thousand multiplies everything below a thousand before it, one when
///   it is nothing (five thousand is 5000);
/// - what follows a thousand is read on its own and added (five thousand two
///   hundred is 5000 + 200).
pub proof fn lemma_compound_reading(p: Seq<u64>, w: u64, q: Seq<u64>)
    ensures
        w < 100 ==> compound_value(p.push(w)) == compound_value(p) + w,
        100 <= w < 1000 && words_below(p, 100) ==> compound_value(p.push(w)) == (if compound_value(p) == 0 {
            1
        } else {
            compound_value(p)
        }) * w,
        w >= 1000 && words_below(p, 1000) ==> compound_value(p.push(w)) == (if compound_value(p) == 0 {
            1
        } else {
            compound_value(p)
        }) * w,
        w >= 1000 ==> compound_value(p.push(w) + q) == compound_value(p.push(w)) + compound_value(q),
{
    let pw = p.push(w);
    assert(pw.drop_last() =~= p);
    assert(pw.last() == w);
    if 100 <= w < 1000 && words_below(p, 100) {
        lemma_state_below(p, 100);
    }
    if w >= 1000 && words_below(p, 1000) {
        lemma_state_below(p, 1000);
    }
    if w >= 1000 {
        assert(compound_state(pw).1 == 0);
        lemma_state_after_close(pw, q);
    }
}

proof fn lemma_digits_prefix(vals: Seq<u64>, k: int)
    requires
        0 <= k <= vals.len(),
    ensures
        digits_value(vals.take(k)) <= digits_value(vals),
    decreases vals.len() - k,
{
    if k < vals.len() {
        lemma_digits_prefix(vals.drop_last(), k);
        assert(vals.drop_last().take(k) =~= vals.take(k));
    } else {
        assert(vals.take(k) =~= vals);
    }
}

proof fn lemma_steps_fit_prefix(vals: Seq<u64>, k: int)
    requires
        0 <= k <= vals.len(),
        compound_steps_fit(vals),
    ensures
        compound_steps_fit(vals.take(k)),
    decreases vals.len() - k,
{
    if k < vals.len() {
        lemma_steps_fit_prefix(vals.drop_last(), k);
        assert(vals.drop_last().take(k) =~= vals.take(k));
    } else {
        assert(vals.take(k) =~= vals);
    }
}

/// The running total and the pending amount are never negative, and their
/// sum never shrinks as words are read; a word of ten or more makes it
/// positive.
proof fn lemma_compound_step(vals: Seq<u64>)
    ensures
        compound_state(vals).0 >= 0,
        compound_state(vals).1 >= 0,
        vals.len() > 0 ==> compound_value(vals) >= compound_value(vals.drop_last()),
        vals.len() > 0 && vals.last() >= 10 ==> compound_value(vals) > 0,
    decreases vals.len(),
{
    if vals.len() > 0 {
        lemma_compound_step(vals.drop_last());
        let prev = compound_state(vals.drop_last());
        let v = vals.last() as int;
        let b = scale_base(prev.1);
        assert(b >= 1 && b >= prev.1);
        if v >= 100 {
            assert(b * v >= b) by (nonlinear_arith)
                requires
                    b >= 1,
                    v >= 100,
            ;
            assert(b * v >= 100) by (nonlinear_arith)
                requires
                    b >= 1,
                    v >= 100,
            ;
        }
    }
}

/// A phrase that is not all single digits reads as a positive number.
proof fn lemma_compound_positive(vals: Seq<u64>)
    requires
        !all_single_digits(vals),
    ensures
        compound_value(vals) > 0,
    decreases vals.len(),
{
    lemma_compound_step(vals);
    if vals.last() < 10 {
        let prev = vals.drop_last();
        assert(!all_single_digits(prev)) by {
            let k = choose|k: int| 0 <= k < vals.len() && !(vals[k] <= 9);
            assert(k < vals.len() - 1);
            assert(prev[k] == vals[k]);
        }
        lemma_compound_positive(prev);
    }
}

/// Reads a phrase of number-word values. `None` stands for a phrase whose
/// evaluation overflows `u64`; otherwise the inner value is `phrase_value`.
fn parse_number_phrase(vals: &Vec<u64>) -> (res: Option<Option<u64>>)
    ensures
        res == (if phrase_overflows(vals@) {
            None
        } else {
            Some(phrase_value(vals@))
        }),
{
    let n = vals.len();
    if n == 0 {
        return Some(None);
    }
    let mut all_digits = true;
    let mut k: usize = 0;
    while k < n
        invariant
            n == vals@.len(),
            0 <= k <= n,
            all_digits == (forall|j: int| 0 <= j < k ==> vals@[j] <= 9),
        decreases n - k,
    {
        if vals[k] > 9 {
            all_digits = false;
        }
        k = k + 1;
    }
    if all_digits {
        let mut value: u64 = 0;
        let mut k: usize = 0;
        while k < n
            invariant
                n == vals@.len(),
                0 <= k <= n,
                value == digits_value(vals@.take(k as int)),
                all_single_digits(vals@),
            decreases n - k,
        {
            assert(vals@.take(k + 1).drop_last() =~= vals@.take(k as int));
            match value.checked_mul(10) {
                Some(tens) => match tens.checked_add(vals[k]) {
                    Some(next) => {
                        value = next;
                    },
                    None => {
                        proof {
                            lemma_digits_prefix(vals@, k + 1);
                        }
                        return Some(None);
                    },
                },
                None => {
                    proof {
                        lemma_digits_prefix(vals@, k + 1);
                    }
                    return Some(None);
                },
            }
            k = k + 1;
        }
        assert(vals@.take(n as int) =~= vals@);
        return Some(Some(value));
    }
    let mut total: u64 = 0;
    let mut current: u64 = 0;
    let mut k: usize = 0;
    while k < n
        invariant
            n == vals@.len(),
            0 <= k <= n,
            compound_state(vals@.take(k as int)) == (total as int, current as int),
            compound_steps_fit(vals@.take(k as int)),
            !all_single_digits(vals@),
        decreases n - k,
    {
        let ghost pre = vals@.take(k + 1);
        assert(pre.drop_last() =~= vals@.take(k as int));
        assert(pre.last() == vals@[k as int]);
        proof {
            if compound_steps_fit(vals@) {
                lemma_steps_fit_prefix(vals@, k + 1);
            }
        }
        let value = vals[k];
        if value >= 1000 {
            if current == 0 {
                current = 1;
            }
            match current.checked_mul(value) {
                Some(c) => {
                    current = c;
                },
                None => {
                    return None;
                },
            }
            match total.checked_add(current) {
                Some(t) => {
                    total = t;
                },
                None => {
                    return None;
                },
            }
            current = 0;
        } else if value >= 100 {
            if current == 0 {
                current = 1;
            }
            match current.checked_mul(value) {
                Some(c) => {
                    current = c;
                },
                None => {
                    return None;
                },
            }
        } else {
            match current.checked_add(value) {
                Some(c) => {
                    current = c;
                },
                None => {
                    return None;
                },
            }
        }
        k = k + 1;
    }
    assert(vals@.take(n as int) =~= vals@);
    match total.checked_add(current) {
        Some(parsed) => {
            proof {
                lemma_compound_positive(vals@);
            }
            // A compound phrase always holds a word of ten or more, so it is
            // never read as zero.
            assert(parsed > 0);
            Some(Some(parsed))
        },
        None => None,
    }
}

/// The decimal digit character for `d` (0 to 9).
pub open spec fn digit_char(d: nat) -> char {
    ((48 + d) as u32) as char
}

/// The decimal notation of `n`, as `u64::to_string` writes it.
pub open spec fn decimal(n: nat) -> Seq<char>
    decreases n,
{
    if n < 10 {
        seq![digit_char(n)]
    } else {
        decimal(n / 10) + seq![digit_char(n % 10)]
    }
}

/// Appends the decimal notation of `n` to `out`.
pub fn push_decimal(out: &mut Vec<char>, n: u64)
    ensures
        final(out)@ == old(out)@ + decimal(n as nat),
    decreases n,
{
    if n >= 10 {
        push_decimal(out, n / 10);
    }
    let d: u8 = (n % 10) as u8;
    let c: char = (48u8 + d) as char;
    assert(c == digit_char((n % 10) as nat));
    out.push(c);
    proof {
        if n >= 10 {
            assert(old(out)@ + decimal((n / 10) as nat) + seq![c] =~= old(out)@ + (decimal(
                (n / 10) as nat,
            ) + seq![c]));
        } else {
            assert(old(out)@.push(c) =~= old(out)@ + seq![c]);
        }
    }
}

/// The text of the `i`-th span of `w`.
pub open spec fn word_at(t: Seq<char>, w: Seq<(int, int)>, i: int) -> Seq<char> {
    t.subrange(w[i].0, w[i].1)
}

pub open spec fn word_number(t: Seq<char>, w: Seq<(int, int)>, i: int, language: SpeechLanguage) -> Option<u64> {
    number_value(word_at(t, w, i), language)
}

/// The end of the run of consecutive number words that starts at word `i`.
pub open spec fn number_run_stop(t: Seq<char>, w: Seq<(int, int)>, i: int, language: SpeechLanguage) -> int
    decreases w.len() - i,
{
    if 0 <= i < w.len() && word_number(t, w, i, language) is Some {
        number_run_stop(t, w, i + 1, language)
    } else {
        i
    }
}

pub open spec fn value_or_zero(v: Option<u64>) -> u64 {
    match v {
        Some(x) => x,
        None => 0,
    }
}

/// The values of the number words `i..j`.
pub open spec fn run_values(t: Seq<char>, w: Seq<(int, int)>, i: int, j: int, language: SpeechLanguage) -> Seq<u64> {
    Seq::new((j - i) as nat, |k: int| value_or_zero(word_number(t, w, i + k, language)))
}

pub proof fn lemma_number_run_stop(t: Seq<char>, w: Seq<(int, int)>, i: int, language: SpeechLanguage)
    requires
        0 <= i <= w.len(),
    ensures
        i <= number_run_stop(t, w, i, language) <= w.len(),
        forall|k: int|
            i <= k < number_run_stop(t, w, i, language) ==> #[trigger] word_number(t, w, k, language) is Some,
    decreases w.len() - i,
{
    if i < w.len() && word_number(t, w, i, language) is Some {
        lemma_number_run_stop(t, w, i + 1, language);
    }
}

/// The result of the spoken-number pass from word `i` on, the text before
/// `last` being already written: the text between words is kept; a maximal
/// run of number words that reads as a number becomes its decimal notation;
/// any other word is kept, and the run is tried again from the next word.
pub open spec fn numbers_from(t: Seq<char>, w: Seq<(int, int)>, i: int, last: int, language: SpeechLanguage) -> Seq<char>
    decreases w.len() - i,
{
    if i < 0 || i >= w.len() {
        t.subrange(last, t.len() as int)
    } else {
        let r = number_run_stop(t, w, i, language);
        let gap = t.subrange(last, w[i].0);
        let value = phrase_value(run_values(t, w, i, r, language));
        proof {
            lemma_number_run_stop(t, w, i, language);
        }
        if r > i && value is Some {
            gap + decimal(value_or_zero(value) as nat) + numbers_from(t, w, r, w[r - 1].1, language)
        } else {
            gap + word_at(t, w, i) + numbers_from(t, w, i + 1, w[i].1, language)
        }
    }
}

/// No run of number words that the pass reads, from word `i` on, overflows.
pub open spec fn numbers_fit_from(t: Seq<char>, w: Seq<(int, int)>, i: int, language: SpeechLanguage) -> bool
    decreases w.len() - i,
{
    if i < 0 || i >= w.len() {
        true
    } else {
        let r = number_run_stop(t, w, i, language);
        let vals = run_values(t, w, i, r, language);
        proof {
            lemma_number_run_stop(t, w, i, language);
        }
        if r > i && phrase_overflows(vals) {
            false
        } else if r > i && phrase_value(vals) is Some {
            numbers_fit_from(t, w, r, language)
        } else {
            numbers_fit_from(t, w, i + 1, language)
        }
    }
}

/// Spoken numbers of `t` written as digits; the words are the maximal runs
/// of the word pattern `(?i)[\p{L}]+`.
pub open spec fn spoken_numbers(t: Seq<char>, language: SpeechLanguage) -> Seq<char> {
    numbers_from(t, runs(t, CharClass::Word), 0, 0, language)
}

/// Every number phrase that the pass reads in `t` fits in `u64`.
pub open spec fn numbers_fit(t: Seq<char>, language: SpeechLanguage) -> bool {
    numbers_fit_from(t, runs(t, CharClass::Word), 0, language)
}

proof fn lemma_numbers_replace(t: Seq<char>, w: Seq<(int, int)>, i: int, last: int, language: SpeechLanguage)
    requires
        0 <= i < w.len(),
        number_run_stop(t, w, i, language) > i,
        !phrase_overflows(run_values(t, w, i, number_run_stop(t, w, i, language), language)),
        phrase_value(run_values(t, w, i, number_run_stop(t, w, i, language), language)) is Some,
    ensures
        ({
            let r = number_run_stop(t, w, i, language);
            let v = value_or_zero(phrase_value(run_values(t, w, i, r, language)));
            &&& numbers_from(t, w, i, last, language) == t.subrange(last, w[i].0) + decimal(v as nat)
                + numbers_from(t, w, r, w[r - 1].1, language)
            &&& numbers_fit_from(t, w, i, language) == numbers_fit_from(t, w, r, language)
        }),
{
}

proof fn lemma_numbers_keep(t: Seq<char>, w: Seq<(int, int)>, i: int, last: int, language: SpeechLanguage)
    requires
        0 <= i < w.len(),
        number_run_stop(t, w, i, language) > i ==> !phrase_overflows(
            run_values(t, w, i, number_run_stop(t, w, i, language), language),
        ),
        number_run_stop(t, w, i, language) > i ==> phrase_value(
            run_values(t, w, i, number_run_stop(t, w, i, language), language),
        ) is None,
    ensures
        numbers_from(t, w, i, last, language) == t.subrange(last, w[i].0) + word_at(t, w, i)
            + numbers_from(t, w, i + 1, w[i].1, language),
        numbers_fit_from(t, w, i, language) == numbers_fit_from(t, w, i + 1, language),
{
}

proof fn lemma_numbers_overflow(t: Seq<char>, w: Seq<(int, int)>, i: int, language: SpeechLanguage)
    requires
        0 <= i < w.len(),
        number_run_stop(t, w, i, language) > i,
        phrase_overflows(run_values(t, w, i, number_run_stop(t, w, i, language), language)),
    ensures
        !numbers_fit_from(t, w, i, language),
{
}

/// The end of the run of number words that starts at `index`.
fn find_number_run_stop(values: &Vec<Option<u64>>, index: usize, Ghost(t): Ghost<Seq<char>>, Ghost(w): Ghost<Seq<(int, int)>>, language: SpeechLanguage) -> (r: usize)
    requires
        values@.len() == w.len(),
        index <= w.len(),
        forall|q: int| 0 <= q < w.len() ==> values@[q] == word_number(t, w, q, language),
    ensures
        r == number_run_stop(t, w, index as int, language),
{
    let n = values.len();
    let mut r: usize = index;
    while r < n && values[r].is_some()
        invariant
            n == values@.len(),
            n == w.len(),
            forall|q: int| 0 <= q < n ==> values@[q] == word_number(t, w, q, language),
            index <= r <= n,
            number_run_stop(t, w, index as int, language) == number_run_stop(t, w, r as int, language),
        decreases n - r,
    {
        r = r + 1;
    }
    r
}

/// The values of the number words `index..r`.
fn collect_run_values(values: &Vec<Option<u64>>, index: usize, r: usize, Ghost(t): Ghost<Seq<char>>, Ghost(w): Ghost<Seq<(int, int)>>, language: SpeechLanguage) -> (run: Vec<u64>)
    requires
        values@.len() == w.len(),
        index <= r <= w.len(),
        forall|q: int| 0 <= q < w.len() ==> values@[q] == word_number(t, w, q, language),
        forall|q: int| index <= q < r ==> #[trigger] word_number(t, w, q, language) is Some,
    ensures
        run@ == run_values(t, w, index as int, r as int, language),
{
    let mut run: Vec<u64> = Vec::new();
    let mut j: usize = index;
    while j < r
        invariant
            values@.len() == w.len(),
            forall|q: int| 0 <= q < w.len() ==> values@[q] == word_number(t, w, q, language),
            index <= j <= r <= w.len(),
            forall|q: int| index <= q < r ==> #[trigger] word_number(t, w, q, language) is Some,
            run@ == run_values(t, w, index as int, j as int, language),
        decreases r - j,
    {
        let v = match values[j] {
            Some(v) => v,
            None => 0,
        };
        run.push(v);
        j = j + 1;
        assert(run@ =~= run_values(t, w, index as int, j as int, language));
    }
    run
}

/// The number value of every word span of `t`.
fn word_number_values(t: &Vec<char>, spans: &Vec<(usize, usize)>, Ghost(w): Ghost<Seq<(int, int)>>, language: SpeechLanguage) -> (values: Vec<Option<u64>>)
    requires
        w == span_ints(spans@),
        forall|q: int| 0 <= q < w.len() ==> 0 <= (#[trigger] w[q]).0 < w[q].1 <= t@.len(),
    ensures
        values@.len() == w.len(),
        forall|q: int| 0 <= q < w.len() ==> values@[q] == word_number(t@, w, q, language),
{
    let n = spans.len();
    let mut values: Vec<Option<u64>> = Vec::new();
    let mut k: usize = 0;
    while k < n
        invariant
            n == spans@.len(),
            w == span_ints(spans@),
            forall|q: int| 0 <= q < n ==> 0 <= (#[trigger] w[q]).0 < w[q].1 <= t@.len(),
            0 <= k <= n,
            values@.len() == k,
            forall|q: int| 0 <= q < k ==> values@[q] == word_number(t@, w, q, language),
        decreases n - k,
    {
        let (s, e) = spans[k];
        assert(w[k as int].0 == s && w[k as int].1 == e);
        assert(0 <= w[k as int].0 < w[k as int].1 <= t@.len());
        let word = slice_chars(t, s, e);
        values.push(number_word_value(&word, language));
        k = k + 1;
    }
    values
}

fn spoken_numbers_chars(t: &Vec<char>, language: SpeechLanguage) -> (res: Option<Vec<char>>)
    ensures
        (res is Some) == numbers_fit(t@, language),
        res matches Some(v) ==> v@ == spoken_numbers(t@, language),
{
    let spans = find_runs_from(t, CharClass::Word, 0);
    let n = spans.len();
    let ghost w = span_ints(spans@);
    proof {
        crate::text_chars::lemma_runs_props(t@, class_pred(CharClass::Word), 0);
    }
    let values = word_number_values(t, &spans, Ghost(w), language);
    let mut out: Vec<char> = Vec::new();
    let mut last_end: usize = 0;
    let mut index: usize = 0;
    while index < n
        invariant
            n == spans@.len(),
            w == span_ints(spans@),
            w == runs(t@, CharClass::Word),
            forall|q: int| 0 <= q < n ==> 0 <= (#[trigger] w[q]).0 < w[q].1 <= t@.len(),
            forall|q: int| 0 <= q < n - 1 ==> (#[trigger] w[q]).1 <= w[q + 1].0,
            values@.len() == n,
            forall|q: int| 0 <= q < n ==> values@[q] == word_number(t@, w, q, language),
            0 <= index <= n,
            last_end <= t@.len(),
            index < n ==> last_end <= w[index as int].0,
            out@ + numbers_from(t@, w, index as int, last_end as int, language) == numbers_from(
                t@,
                w,
                0,
                0,
                language,
            ),
            numbers_fit_from(t@, w, index as int, language) == numbers_fit_from(t@, w, 0, language),
        decreases n - index,
    {
        let (start, end) = spans[index];
        assert(w[index as int].0 == start && w[index as int].1 == end);
        let ghost before = out@;
        let ghost gap = t@.subrange(last_end as int, start as int);
        push_range(&mut out, t, last_end, start);
        let r = find_number_run_stop(&values, index, Ghost(t@), Ghost(w), language);
        proof {
            lemma_number_run_stop(t@, w, index as int, language);
        }
        let mut replaced = false;
        if r > index {
            let run = collect_run_values(&values, index, r, Ghost(t@), Ghost(w), language);
            match parse_number_phrase(&run) {
                None => {
                    proof {
                        lemma_numbers_overflow(t@, w, index as int, language);
                    }
                    return None;
                },
                Some(Some(v)) => {
                    push_decimal(&mut out, v);
                    let ghost next_last = w[r - 1].1;
                    proof {
                        lemma_numbers_replace(t@, w, index as int, last_end as int, language);
                        assert(out@ + numbers_from(t@, w, r as int, next_last, language) =~= before
                            + (gap + decimal(v as nat) + numbers_from(
                            t@,
                            w,
                            r as int,
                            next_last,
                            language,
                        )));
                    }
                    let (_, run_last_end) = spans[r - 1];
                    last_end = run_last_end;
                    index = r;
                    replaced = true;
                },
                Some(None) => {},
            }
        }
        if !replaced {
            push_range(&mut out, t, start, end);
            proof {
                lemma_numbers_keep(t@, w, index as int, last_end as int, language);
                assert(out@ + numbers_from(t@, w, index + 1, end as int, language) =~= before + (gap
                    + word_at(t@, w, index as int) + numbers_from(
                    t@,
                    w,
                    index + 1,
                    end as int,
                    language,
                )));
            }
            last_end = end;
            index = index + 1;
        }
    }
    push_range(&mut out, t, last_end, t.len());
    Some(out)
}

/// Replaces spoken numbers with digits ("one two three" becomes "123",
/// "sto dwadzieścia trzy" becomes "123"). A number phrase whose reading
/// overflows `u64` is outside what this pass accepts.
pub fn apply_spoken_numbers(text: &str, language: SpeechLanguage) -> (res: String)
    requires
        numbers_fit(text@, language),
    ensures
        res@ == spoken_numbers(text@, language),
{
    let t = chars_of(text);
    match spoken_numbers_chars(&t, language) {
        Some(v) => string_from_chars(&v),
        None => string_from_chars(&t),
    }
}

/// The spoken-number pass on any text: `None` exactly when a number phrase
/// of `text` overflows `u64`.
pub fn try_apply_spoken_numbers(text: &str, language: SpeechLanguage) -> (res: Option<String>)
    ensures
        (res is Some) == numbers_fit(text@, language),
        res matches Some(s) ==> s@ == spoken_numbers(text@, language),
{
    let t = chars_of(text);
    match spoken_numbers_chars(&t, language) {
        Some(v) => Some(string_from_chars(&v)),
        None => None,
    }
}

/// The text of a span.
pub open spec fn span_text(t: Seq<char>, sp: (int, int)) -> Seq<char> {
    t.subrange(sp.0, sp.1)
}

/// The white-space separated words of `s` (`str::split_whitespace`).
pub open spec fn words_of(s: Seq<char>) -> Seq<Seq<char>> {
    runs(s, CharClass::NonSpace).map_values(|sp: (int, int)| s.subrange(sp.0, sp.1))
}

/// The words `ws` joined by single spaces.
pub open spec fn join_words(ws: Seq<Seq<char>>) -> Seq<char>
    decreases ws.len(),
{
    if ws.len() == 0 {
        Seq::empty()
    } else if ws.len() == 1 {
        ws[0]
    } else {
        join_words(ws.drop_last()) + seq![' '] + ws.last()
    }
}

/// The first position at or after `i` where `needle` occurs in `hay`
/// (`str::find` on the text from `i` on).
pub open spec fn find_from(hay: Seq<char>, needle: Seq<char>, i: int) -> Option<int>
    decreases hay.len() + 1 - i,
{
    if i < 0 || i + needle.len() > hay.len() {
        None
    } else if hay.subrange(i, i + needle.len()) == needle {
        Some(i)
    } else {
        find_from(hay, needle, i + 1)
    }
}

/// The text words at `cand` begin with the words `pw`.
pub open spec fn leading_words_match(t: Seq<char>, cand: Seq<(int, int)>, pw: Seq<Seq<char>>) -> bool {
    cand.len() >= pw.len() && forall|q: int|
        0 <= q < pw.len() ==> tokens_equal(#[trigger] span_text(t, cand[q]), pw[q])
}

/// Where a match of the spoken phrase `phrase` at the word `t[s..e]` ends,
/// if it matches there. A one-word phrase matches the word itself. A longer
/// phrase matches when the white-space separated words of the text from `s`
/// on begin with the phrase's words; the match then runs to the end of the
/// first occurrence, from `s` on, of those words joined by single spaces,
/// or to the end of the word when they were not separated that way.
pub open spec fn phrase_match_end(t: Seq<char>, s: int, e: int, phrase: Seq<char>) -> Option<int> {
    let pw = words_of(phrase);
    let k = pw.len();
    if k == 0 {
        None
    } else if k == 1 {
        if tokens_equal(t.subrange(s, e), pw[0]) {
            Some(e)
        } else {
            None
        }
    } else {
        let cand = runs_from(t, class_pred(CharClass::NonSpace), s);
        if leading_words_match(t, cand, pw) {
            let consumed = join_words(Seq::new(k, |q: int| span_text(t, cand[q])));
            match find_from(t, consumed, s) {
                Some(at) => Some(at + consumed.len()),
                None => Some(e),
            }
        } else {
            None
        }
    }
}

/// The length of an entry's phrase in UTF-8 bytes (`str::len`).
pub open spec fn phrase_len(entry: (&'static str, &'static str)) -> int {
    entry.0.len() as int
}

/// Where a stable sort by decreasing phrase length puts `x` among the
/// already sorted `s`: after every entry whose phrase is at least as long
/// (from index `i` on), before the first whose phrase is shorter.
pub open spec fn longer_insert_pos(x: (&'static str, &'static str), s: Seq<(&'static str, &'static str)>, i: int) -> int
    decreases s.len() - i,
{
    if i < 0 || i >= s.len() {
        s.len() as int
    } else if phrase_len(x) > phrase_len(s[i]) {
        i
    } else {
        longer_insert_pos(x, s, i + 1)
    }
}

/// The entries sorted by decreasing phrase length, entries of equal length
/// keeping their order (the stable `sort_by_key` on the reversed length).
pub open spec fn longest_phrases_first(s: Seq<(&'static str, &'static str)>) -> Seq<(&'static str, &'static str)>
    decreases s.len(),
{
    if s.len() == 0 {
        Seq::empty()
    } else {
        let sorted = longest_phrases_first(s.drop_last());
        sorted.insert(longer_insert_pos(s.last(), sorted, 0), s.last())
    }
}

/// The order in which the symbol pass tries the phrases of a language.
pub open spec fn phrase_order(language: SpeechLanguage) -> Seq<(&'static str, &'static str)> {
    longest_phrases_first(symbol_table(language))
}

/// No entry has a longer phrase than an entry before it.
pub open spec fn sorted_longest_first(s: Seq<(&'static str, &'static str)>) -> bool {
    forall|i: int, j: int| 0 <= i < j < s.len() ==> phrase_len(s[i]) >= phrase_len(s[j])
}

proof fn lemma_longer_insert_pos(x: (&'static str, &'static str), s: Seq<(&'static str, &'static str)>, i: int)
    requires
        0 <= i <= s.len(),
    ensures
        i <= longer_insert_pos(x, s, i) <= s.len(),
        forall|k: int| i <= k < longer_insert_pos(x, s, i) ==> phrase_len(#[trigger] s[k]) >= phrase_len(x),
        longer_insert_pos(x, s, i) < s.len() ==> phrase_len(x) > phrase_len(s[longer_insert_pos(x, s, i)]),
    decreases s.len() - i,
{
    if i < s.len() && !(phrase_len(x) > phrase_len(s[i])) {
        lemma_longer_insert_pos(x, s, i + 1);
    }
}

/// The sorted phrases are the table's entries, each as often as in the
/// table, and no phrase is longer than one before it.
pub proof fn lemma_longest_phrases_first(s: Seq<(&'static str, &'static str)>)
    ensures
        sorted_longest_first(longest_phrases_first(s)),
        longest_phrases_first(s).to_multiset() =~= s.to_multiset(),
    decreases s.len(),
{
    broadcast use vstd::seq_lib::group_to_multiset_ensures;

    if s.len() > 0 {
        let prev = s.drop_last();
        let x = s.last();
        let sorted = longest_phrases_first(prev);
        lemma_longest_phrases_first(prev);
        let p = longer_insert_pos(x, sorted, 0);
        lemma_longer_insert_pos(x, sorted, 0);
        let r = sorted.insert(p, x);
        assert(r == longest_phrases_first(s));
        assert forall|i: int, j: int| 0 <= i < j < r.len() implies phrase_len(r[i]) >= phrase_len(r[j]) by {
            if j < p {
                assert(r[i] == sorted[i] && r[j] == sorted[j]);
            } else if j == p {
                assert(r[i] == sorted[i] && r[j] == x);
            } else if i == p {
                assert(r[i] == x && r[j] == sorted[j - 1]);
                assert(phrase_len(sorted[p]) >= phrase_len(sorted[j - 1]));
            } else if i < p {
                assert(r[i] == sorted[i] && r[j] == sorted[j - 1]);
            } else {
                assert(r[i] == sorted[i - 1] && r[j] == sorted[j - 1]);
            }
        }
        assert(r.remove(p) =~= sorted);
        assert(r[p] == x);
        assert(r.to_multiset().remove(x) =~= sorted.to_multiset());
        assert(r.to_multiset().count(x) > 0) by {
            assert(r.contains(x));
        }
        assert(s == prev.push(x));
        assert(s.to_multiset() =~= prev.to_multiset().insert(x));
        assert(r.to_multiset() =~= r.to_multiset().remove(x).insert(x));
    }
}

/// Inserts `x` into `sorted` where `longest_phrases_first` puts it.
fn insert_by_phrase_len(sorted: &mut Vec<(&'static str, &'static str)>, x: (&'static str, &'static str))
    ensures
        final(sorted)@ == old(sorted)@.insert(longer_insert_pos(x, old(sorted)@, 0), x),
{
    let mut p: usize = 0;
    while p < sorted.len() && !(x.0.len() > sorted[p].0.len())
        invariant
            0 <= p <= sorted@.len(),
            sorted@ == old(sorted)@,
            longer_insert_pos(x, sorted@, 0) == longer_insert_pos(x, sorted@, p as int),
        decreases sorted@.len() - p,
    {
        p = p + 1;
    }
    sorted.insert(p, x);
}

/// The entries of `table` sorted by decreasing phrase length
/// (`longest_phrases_first`).
fn sort_longest_first(table: &[(&'static str, &'static str)]) -> (res: Vec<(&'static str, &'static str)>)
    ensures
        res@ == longest_phrases_first(table@),
{
    let mut sorted: Vec<(&'static str, &'static str)> = Vec::new();
    let mut k: usize = 0;
    while k < table.len()
        invariant
            0 <= k <= table@.len(),
            sorted@ == longest_phrases_first(table@.take(k as int)),
        decreases table@.len() - k,
    {
        let x = table[k];
        proof {
            assert(table@.take(k as int + 1).drop_last() =~= table@.take(k as int));
            assert(table@.take(k as int + 1).last() == x);
        }
        insert_by_phrase_len(&mut sorted, x);
        k = k + 1;
    }
    assert(table@.take(table@.len() as int) =~= table@);
    sorted
}

/// The symbol and the match end of the first entry of `table`, from index
/// `j` on, whose phrase matches at the word `t[s..e]`.
pub open spec fn first_symbol_match(t: Seq<char>, s: int, e: int, table: Seq<(&'static str, &'static str)>, j: int) -> Option<(Seq<char>, int)>
    decreases table.len() - j,
{
    if j < 0 || j >= table.len() {
        None
    } else {
        match phrase_match_end(t, s, e, table[j].0@) {
            Some(end) => Some((table[j].1@, end)),
            None => first_symbol_match(t, s, e, table, j + 1),
        }
    }
}

/// The result of the spoken-symbol pass from word `i` on, the text before
/// `last` being already written: words inside an earlier match are skipped;
/// the text between words is kept; a word where a phrase of `table` matches
/// becomes the phrase's symbol; any other word is kept.
pub open spec fn symbols_from(t: Seq<char>, w: Seq<(int, int)>, i: int, last: int, table: Seq<(&'static str, &'static str)>) -> Seq<char>
    decreases w.len() - i,
{
    if i < 0 || i >= w.len() {
        t.subrange(last, t.len() as int)
    } else if w[i].0 < last {
        symbols_from(t, w, i + 1, last, table)
    } else {
        let gap = t.subrange(last, w[i].0);
        match first_symbol_match(t, w[i].0, w[i].1, table, 0) {
            Some(m) => gap + m.0 + symbols_from(t, w, i + 1, m.1, table),
            None => gap + span_text(t, w[i]) + symbols_from(t, w, i + 1, w[i].1, table),
        }
    }
}

/// Spoken symbols of `t` replaced by the symbols, the longest phrase of the
/// language's table winning.
pub open spec fn spoken_symbols(t: Seq<char>, language: SpeechLanguage) -> Seq<char> {
    symbols_from(t, runs(t, CharClass::Word), 0, 0, phrase_order(language))
}

pub proof fn lemma_find_from(hay: Seq<char>, needle: Seq<char>, i: int)
    ensures
        find_from(hay, needle, i) matches Some(at) ==> i <= at && at + needle.len() <= hay.len()
            && hay.subrange(at, at + needle.len()) == needle,
    decreases hay.len() + 1 - i,
{
    if !(i < 0 || i + needle.len() > hay.len()) && hay.subrange(i, i + needle.len()) != needle {
        lemma_find_from(hay, needle, i + 1);
    }
}

/// Whether `needle` occurs in `hay` at position `at`.
fn occurs_at(hay: &Vec<char>, needle: &Vec<char>, at: usize) -> (res: bool)
    requires
        at <= hay@.len(),
        needle@.len() <= hay@.len() - at,
    ensures
        res == (hay@.subrange(at as int, at + needle@.len()) == needle@),
{
    let m = needle.len();
    let hl = hay.len();
    let mut q: usize = 0;
    while q < m
        invariant
            m == needle@.len(),
            hl == hay@.len(),
            at <= hay@.len(),
            m <= hay@.len() - at,
            0 <= q <= m,
            forall|k: int| 0 <= k < q ==> hay@[at + k] == needle@[k],
        decreases m - q,
    {
        if hay[at + q] != needle[q] {
            assert(hay@.subrange(at as int, at + m)[q as int] != needle@[q as int]);
            return false;
        }
        q = q + 1;
    }
    assert(hay@.subrange(at as int, at + m) =~= needle@);
    true
}

/// The first occurrence of `needle` in `hay` at or after `from`.
fn find_chars_from(hay: &Vec<char>, needle: &Vec<char>, from: usize) -> (res: Option<usize>)
    requires
        from <= hay@.len(),
    ensures
        match res {
            Some(at) => find_from(hay@, needle@, from as int) == Some(at as int),
            None => find_from(hay@, needle@, from as int) is None,
        },
{
    let mut i: usize = from;
    while needle.len() <= hay.len() - i
        invariant
            from <= i <= hay@.len(),
            find_from(hay@, needle@, from as int) == find_from(hay@, needle@, i as int),
        decreases hay@.len() - i,
    {
        if occurs_at(hay, needle, i) {
            return Some(i);
        }
        proof {
            if i == hay@.len() {
                assert(hay@.subrange(i as int, i as int) =~= needle@);
            }
        }
        i = i + 1;
    }
    None
}

/// The white-space separated words of `s`.
fn words_of_chars(s: &Vec<char>) -> (res: Vec<Vec<char>>)
    ensures
        res@.len() == words_of(s@).len(),
        forall|q: int| 0 <= q < res@.len() ==> (#[trigger] res@[q])@ == words_of(s@)[q],
{
    let spans = find_runs_from(s, CharClass::NonSpace, 0);
    let ghost w = span_ints(spans@);
    proof {
        crate::text_chars::lemma_runs_props(s@, class_pred(CharClass::NonSpace), 0);
    }
    let mut res: Vec<Vec<char>> = Vec::new();
    let mut k: usize = 0;
    while k < spans.len()
        invariant
            w == span_ints(spans@),
            w == runs(s@, CharClass::NonSpace),
            forall|q: int| 0 <= q < w.len() ==> 0 <= (#[trigger] w[q]).0 < w[q].1 <= s@.len(),
            0 <= k <= spans@.len(),
            res@.len() == k,
            forall|q: int| 0 <= q < k ==> (#[trigger] res@[q])@ == words_of(s@)[q],
        decreases spans@.len() - k,
    {
        let (a, b) = spans[k];
        assert(w[k as int].0 == a && w[k as int].1 == b);
        assert(0 <= w[k as int].0 < w[k as int].1 <= s@.len());
        res.push(slice_chars(s, a, b));
        k = k + 1;
    }
    res
}

/// `phrase_match_end`, given the white-space separated words of the text
/// from `s` on (`cand`).
fn phrase_match_end_exec(t: &Vec<char>, s: usize, e: usize, cand: &Vec<(usize, usize)>, phrase: &str) -> (res: Option<usize>)
    requires
        s < e <= t@.len(),
        span_ints(cand@) == runs_from(t@, class_pred(CharClass::NonSpace), s as int),
    ensures
        match res {
            Some(end) => phrase_match_end(t@, s as int, e as int, phrase@) == Some(end as int),
            None => phrase_match_end(t@, s as int, e as int, phrase@) is None,
        },
        res matches Some(end) ==> end <= t@.len(),
{
    let pchars = chars_of(phrase);
    let pw = words_of_chars(&pchars);
    let k = pw.len();
    if k == 0 {
        return None;
    }
    if k == 1 {
        let word = slice_chars(t, s, e);
        if tokens_equal_exec(&word, &pw[0]) {
            return Some(e);
        } else {
            return None;
        }
    }
    if cand.len() < k {
        assert(span_ints(cand@).len() == cand@.len());
        assert(runs_from(t@, class_pred(CharClass::NonSpace), s as int).len() < k);
        assert(words_of(phrase@).len() == k);
        assert(phrase_match_end(t@, s as int, e as int, phrase@) is None);
        return None;
    }
    let ghost c = span_ints(cand@);
    proof {
        crate::text_chars::lemma_runs_props(t@, class_pred(CharClass::NonSpace), s as int);
    }
    let mut q: usize = 0;
    while q < k
        invariant
            k == pw@.len(),
            k >= 2,
            s < e <= t@.len(),
            k == words_of(phrase@).len(),
            forall|j: int| 0 <= j < k ==> (#[trigger] pw@[j])@ == words_of(phrase@)[j],
            c == span_ints(cand@),
            c == runs_from(t@, class_pred(CharClass::NonSpace), s as int),
            k <= c.len(),
            forall|j: int| 0 <= j < c.len() ==> s <= (#[trigger] c[j]).0 < c[j].1 <= t@.len(),
            0 <= q <= k,
            forall|j: int| 0 <= j < q ==> tokens_equal(#[trigger] span_text(t@, c[j]), words_of(phrase@)[j]),
        decreases k - q,
    {
        let (a, b) = cand[q];
        assert(c[q as int].0 == a && c[q as int].1 == b);
        assert(s <= c[q as int].0 < c[q as int].1 <= t@.len());
        let tok = slice_chars(t, a, b);
        if !tokens_equal_exec(&tok, &pw[q]) {
            assert(pw@[q as int]@ == words_of(phrase@)[q as int]);
            assert(!tokens_equal(span_text(t@, c[q as int]), words_of(phrase@)[q as int]));
            assert(!leading_words_match(t@, c, words_of(phrase@)));
            assert(phrase_match_end(t@, s as int, e as int, phrase@) is None);
            return None;
        }
        q = q + 1;
    }
    let ghost toks = Seq::new(k as nat, |j: int| span_text(t@, c[j]));
    let mut consumed: Vec<char> = Vec::new();
    let mut q: usize = 0;
    while q < k
        invariant
            c == span_ints(cand@),
            k <= c.len(),
            k >= 2,
            forall|j: int| 0 <= j < c.len() ==> s <= (#[trigger] c[j]).0 < c[j].1 <= t@.len(),
            toks == Seq::new(k as nat, |j: int| span_text(t@, c[j])),
            0 <= q <= k,
            consumed@ == join_words(toks.take(q as int)),
        decreases k - q,
    {
        let (a, b) = cand[q];
        assert(c[q as int].0 == a && c[q as int].1 == b);
        assert(s <= c[q as int].0 < c[q as int].1 <= t@.len());
        let ghost prev = consumed@;
        if q > 0 {
            consumed.push(' ');
        }
        push_range(&mut consumed, t, a, b);
        proof {
            let tk = toks.take(q + 1);
            assert(tk.drop_last() =~= toks.take(q as int));
            assert(tk.last() == span_text(t@, c[q as int]));
            if q == 0 {
                assert(consumed@ =~= tk[0]);
            } else {
                assert(consumed@ =~= prev + seq![' '] + tk.last());
            }
        }
        q = q + 1;
    }
    assert(toks.take(k as int) =~= toks);
    let tl = t.len();
    assert(tl == t@.len());
    match find_chars_from(t, &consumed, s) {
        Some(at) => {
            proof {
                lemma_find_from(t@, consumed@, s as int);
                assert(at + consumed@.len() <= t@.len());
            }
            Some(at + consumed.len())
        },
        None => Some(e),
    }
}

/// The first entry of `table` whose phrase matches at the word `t[s..e]`:
/// its symbol and where the match ends.
fn first_symbol_match_exec(t: &Vec<char>, s: usize, e: usize, table: &[(&'static str, &'static str)]) -> (res: Option<(&'static str, usize)>)
    requires
        s < e <= t@.len(),
    ensures
        match res {
            Some(m) => first_symbol_match(t@, s as int, e as int, table@, 0) == Some((m.0@, m.1 as int)),
            None => first_symbol_match(t@, s as int, e as int, table@, 0) is None,
        },
        res matches Some(m) ==> m.1 <= t@.len(),
{
    let cand = find_runs_from(t, CharClass::NonSpace, s);
    let mut j: usize = 0;
    while j < table.len()
        invariant
            s < e <= t@.len(),
            span_ints(cand@) == runs_from(t@, class_pred(CharClass::NonSpace), s as int),
            0 <= j <= table@.len(),
            first_symbol_match(t@, s as int, e as int, table@, 0) == first_symbol_match(
                t@,
                s as int,
                e as int,
                table@,
                j as int,
            ),
        decreases table@.len() - j,
    {
        let entry = table[j];
        assert(entry == table@[j as int]);
        match phrase_match_end_exec(t, s, e, &cand, entry.0) {
            Some(end) => {
                return Some((entry.1, end));
            },
            None => {},
        }
        j = j + 1;
    }
    None
}

proof fn lemma_symbols_skip(t: Seq<char>, w: Seq<(int, int)>, i: int, last: int, table: Seq<(&'static str, &'static str)>)
    requires
        0 <= i < w.len(),
        w[i].0 < last,
    ensures
        symbols_from(t, w, i, last, table) == symbols_from(t, w, i + 1, last, table),
{
}

proof fn lemma_symbols_step(t: Seq<char>, w: Seq<(int, int)>, i: int, last: int, table: Seq<(&'static str, &'static str)>)
    requires
        0 <= i < w.len(),
        w[i].0 >= last,
    ensures
        symbols_from(t, w, i, last, table) == (match first_symbol_match(t, w[i].0, w[i].1, table, 0) {
            Some(m) => t.subrange(last, w[i].0) + m.0 + symbols_from(t, w, i + 1, m.1, table),
            None => t.subrange(last, w[i].0) + span_text(t, w[i]) + symbols_from(t, w, i + 1, w[i].1, table),
        }),
{
}

/// Replaces spoken symbols with the symbols ("email at example dot com"
/// becomes "email @ example . com"); a phrase of several words replaces all
/// of its words.
#[verifier::spinoff_prover]
pub fn apply_spoken_symbols(text: &str, language: SpeechLanguage) -> (res: String)
    ensures
        res@ == spoken_symbols(text@, language),
{
    let t = chars_of(text);
    let sorted = sort_longest_first(symbol_mappings(language));
    let table = sorted.as_slice();
    let spans = find_runs_from(&t, CharClass::Word, 0);
    let n = spans.len();
    let ghost w = span_ints(spans@);
    proof {
        crate::text_chars::lemma_runs_props(t@, class_pred(CharClass::Word), 0);
    }
    let mut out: Vec<char> = Vec::new();
    let mut last_end: usize = 0;
    let mut index: usize = 0;
    while index < n
        invariant
            n == spans@.len(),
            w == span_ints(spans@),
            w == runs(t@, CharClass::Word),
            table@ == phrase_order(language),
            forall|q: int| 0 <= q < n ==> 0 <= (#[trigger] w[q]).0 < w[q].1 <= t@.len(),
            0 <= index <= n,
            last_end <= t@.len(),
            out@ + symbols_from(t@, w, index as int, last_end as int, table@) == symbols_from(
                t@,
                w,
                0,
                0,
                table@,
            ),
        decreases n - index,
    {
        let (start, end) = spans[index];
        assert(w[index as int].0 == start && w[index as int].1 == end);
        assert(0 <= w[index as int].0 < w[index as int].1 <= t@.len());
        if start < last_end {
            proof {
                lemma_symbols_skip(t@, w, index as int, last_end as int, table@);
            }
            index = index + 1;
        } else {
            let ghost before = out@;
            let ghost gap = t@.subrange(last_end as int, start as int);
            proof {
                lemma_symbols_step(t@, w, index as int, last_end as int, table@);
            }
            push_range(&mut out, &t, last_end, start);
            match first_symbol_match_exec(&t, start, end, table) {
                Some((symbol, match_end)) => {
                    push_str_chars(&mut out, symbol);
                    proof {
                        assert(out@ + symbols_from(t@, w, index + 1, match_end as int, table@)
                            =~= before + (gap + symbol@ + symbols_from(
                            t@,
                            w,
                            index + 1,
                            match_end as int,
                            table@,
                        )));
                    }
                    last_end = match_end;
                },
                None => {
                    push_range(&mut out, &t, start, end);
                    proof {
                        assert(out@ + symbols_from(t@, w, index + 1, end as int, table@) =~= before
                            + (gap + span_text(t@, w[index as int]) + symbols_from(
                            t@,
                            w,
                            index + 1,
                            end as int,
                            table@,
                        )));
                    }
                    last_end = end;
                },
            }
            index = index + 1;
        }
    }
    push_range(&mut out, &t, last_end, t.len());
    string_from_chars(&out)
}

proof fn lemma_numbers_identity_from(t: Seq<char>, w: Seq<(int, int)>, i: int, last: int, language: SpeechLanguage)
    requires
        0 <= i <= w.len(),
        0 <= last <= t.len(),
        i < w.len() ==> last <= w[i].0,
        forall|k: int| 0 <= k < w.len() ==> 0 <= (#[trigger] w[k]).0 < w[k].1 <= t.len(),
        forall|k: int| 0 <= k < w.len() - 1 ==> (#[trigger] w[k]).1 <= w[k + 1].0,
        forall|k: int| 0 <= k < w.len() ==> #[trigger] word_number(t, w, k, language) is None,
    ensures
        numbers_from(t, w, i, last, language) == t.subrange(last, t.len() as int),
    decreases w.len() - i,
{
    if i < w.len() {
        assert(number_run_stop(t, w, i, language) == i);
        lemma_numbers_identity_from(t, w, i + 1, w[i].1, language);
        assert(t.subrange(last, w[i].0) + t.subrange(w[i].0, w[i].1) + t.subrange(
            w[i].1,
            t.len() as int,
        ) =~= t.subrange(last, t.len() as int));
    }
}

/// A text in which no word is a number word comes out of the spoken-number
/// pass unchanged.
pub proof fn lemma_spoken_numbers_identity(t: Seq<char>, language: SpeechLanguage)
    requires
        forall|k: int|
            0 <= k < runs(t, CharClass::Word).len() ==> #[trigger] number_value(
                span_text(t, runs(t, CharClass::Word)[k]),
                language,
            ) is None,
    ensures
        spoken_numbers(t, language) == t,
{
    let w = runs(t, CharClass::Word);
    crate::text_chars::lemma_runs_props(t, class_pred(CharClass::Word), 0);
    assert forall|k: int| 0 <= k < w.len() implies #[trigger] word_number(t, w, k, language) is None by {
        assert(word_at(t, w, k) == span_text(t, w[k]));
    }
    lemma_numbers_identity_from(t, w, 0, 0, language);
    assert(t.subrange(0, t.len() as int) =~= t);
}

proof fn lemma_symbols_identity_from(t: Seq<char>, w: Seq<(int, int)>, i: int, last: int, table: Seq<(&'static str, &'static str)>)
    requires
        0 <= i <= w.len(),
        0 <= last <= t.len(),
        i < w.len() ==> last <= w[i].0,
        forall|k: int| 0 <= k < w.len() ==> 0 <= (#[trigger] w[k]).0 < w[k].1 <= t.len(),
        forall|k: int| 0 <= k < w.len() - 1 ==> (#[trigger] w[k]).1 <= w[k + 1].0,
        forall|k: int| 0 <= k < w.len() ==> #[trigger] first_symbol_match(t, w[k].0, w[k].1, table, 0) is None,
    ensures
        symbols_from(t, w, i, last, table) == t.subrange(last, t.len() as int),
    decreases w.len() - i,
{
    if i < w.len() {
        assert(first_symbol_match(t, w[i].0, w[i].1, table, 0) is None);
        lemma_symbols_identity_from(t, w, i + 1, w[i].1, table);
        assert(t.subrange(last, w[i].0) + span_text(t, w[i]) + t.subrange(w[i].1, t.len() as int)
            =~= t.subrange(last, t.len() as int));
    }
}

/// When no phrase of `table` matches at the word `t[s..e]`, no entry of the
/// phrases in pass order matches from index `j` on.
proof fn lemma_no_match_in_order(t: Seq<char>, s: int, e: int, table: Seq<(&'static str, &'static str)>, j: int)
    requires
        0 <= j,
        forall|k: int| 0 <= k < table.len() ==> #[trigger] phrase_match_end(t, s, e, table[k].0@) is None,
    ensures
        first_symbol_match(t, s, e, longest_phrases_first(table), j) is None,
    decreases longest_phrases_first(table).len() - j,
{
    broadcast use vstd::seq_lib::group_to_multiset_ensures;

    let order = longest_phrases_first(table);
    if j < order.len() {
        lemma_longest_phrases_first(table);
        assert(order.contains(order[j]));
        assert(table.to_multiset().count(order[j]) > 0);
        assert(table.contains(order[j]));
        let k = choose|k: int| 0 <= k < table.len() && table[k] == order[j];
        assert(phrase_match_end(t, s, e, table[k].0@) is None);
        lemma_no_match_in_order(t, s, e, table, j + 1);
    }
}

/// A text in which no phrase of the language's symbol table matches at any
/// word comes out of the spoken-symbol pass unchanged.
pub proof fn lemma_spoken_symbols_identity(t: Seq<char>, language: SpeechLanguage)
    requires
        forall|k: int, j: int|
            0 <= k < runs(t, CharClass::Word).len() && 0 <= j < symbol_table(language).len()
                ==> #[trigger] phrase_match_end(
                t,
                runs(t, CharClass::Word)[k].0,
                runs(t, CharClass::Word)[k].1,
                #[trigger] symbol_table(language)[j].0@,
            ) is None,
    ensures
        spoken_symbols(t, language) == t,
{
    let w = runs(t, CharClass::Word);
    let table = symbol_table(language);
    crate::text_chars::lemma_runs_props(t, class_pred(CharClass::Word), 0);
    assert forall|k: int| 0 <= k < w.len() implies #[trigger] first_symbol_match(
        t,
        w[k].0,
        w[k].1,
        phrase_order(language),
        0,
    ) is None by {
        assert forall|j: int| 0 <= j < table.len() implies #[trigger] phrase_match_end(
            t,
            w[k].0,
            w[k].1,
            table[j].0@,
        ) is None by {
            assert(phrase_match_end(t, w[k].0, w[k].1, symbol_table(language)[j].0@) is None);
        }
        lemma_no_match_in_order(t, w[k].0, w[k].1, table, 0);
    }
    lemma_symbols_identity_from(t, w, 0, 0, phrase_order(language));
    assert(t.subrange(0, t.len() as int) =~= t);
}

/// When the entry at `k` matches at the word `t[s..e]`, the first match from
/// `j0` on is an entry at an index between `j0` and `k`.
proof fn lemma_first_match_within(t: Seq<char>, s: int, e: int, tab: Seq<(&'static str, &'static str)>, j0: int, k: int)
    requires
        0 <= j0 <= k < tab.len(),
        phrase_match_end(t, s, e, tab[k].0@) is Some,
    ensures
        exists|i: int|
            j0 <= i <= k && (#[trigger] phrase_match_end(t, s, e, tab[i].0@) matches Some(end)
                && first_symbol_match(t, s, e, tab, j0) == Some((tab[i].1@, end))),
    decreases k - j0,
{
    if phrase_match_end(t, s, e, tab[j0].0@) is None {
        lemma_first_match_within(t, s, e, tab, j0 + 1, k);
    } else {
        assert(j0 <= j0 <= k && (phrase_match_end(t, s, e, tab[j0].0@) matches Some(end)
            && first_symbol_match(t, s, e, tab, j0) == Some((tab[j0].1@, end))));
    }
}

/// The longest phrase wins: where some phrase of the language's table
/// matches at a word, the symbol pass applies there a matching phrase at
/// least as long (in UTF-8 bytes).
#[verifier::spinoff_prover]
pub proof fn lemma_longest_phrase_wins(t: Seq<char>, s: int, e: int, language: SpeechLanguage, j: int)
    requires
        0 <= j < symbol_table(language).len(),
        phrase_match_end(t, s, e, symbol_table(language)[j].0@) is Some,
    ensures
        exists|i: int|
            0 <= i < phrase_order(language).len() && (#[trigger] phrase_match_end(
                t,
                s,
                e,
                phrase_order(language)[i].0@,
            ) matches Some(end) && first_symbol_match(t, s, e, phrase_order(language), 0) == Some(
                (phrase_order(language)[i].1@, end),
            ) && phrase_len(phrase_order(language)[i]) >= phrase_len(symbol_table(language)[j])),
{
    broadcast use vstd::seq_lib::group_to_multiset_ensures;

    let table = symbol_table(language);
    let order = phrase_order(language);
    lemma_longest_phrases_first(table);
    assert(table.contains(table[j]));
    assert(order.to_multiset().count(table[j]) > 0);
    assert(order.contains(table[j]));
    let k = choose|k: int| 0 <= k < order.len() && order[k] == table[j];
    lemma_first_match_within(t, s, e, order, 0, k);
    let i = choose|i: int|
        0 <= i <= k && (#[trigger] phrase_match_end(t, s, e, order[i].0@) matches Some(end)
            && first_symbol_match(t, s, e, order, 0) == Some((order[i].1@, end)));
    assert(phrase_len(order[i]) >= phrase_len(order[k]));
}

} // verus!
