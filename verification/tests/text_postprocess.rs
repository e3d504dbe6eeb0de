use handy::text_postprocess::{
    adjust_first_letter_case, apply_spoken_numbers, apply_spoken_symbols, english_symbol_map,
    normalize_token, polish_symbol_map, resolve_speech_language, try_apply_spoken_numbers,
    SpeechLanguage,
};

#[test]
fn converts_english_digit_sequence() {
    let result = apply_spoken_numbers("one two three", SpeechLanguage::English);
    assert_eq!(result, "123");
}

#[test]
fn converts_polish_compound_number() {
    let result = apply_spoken_numbers("sto dwadzieścia trzy", SpeechLanguage::Polish);
    assert_eq!(result, "123");
}

#[test]
fn converts_english_symbols() {
    let result = apply_spoken_symbols("email at example dot com", SpeechLanguage::English);
    assert_eq!(result, "email @ example . com");
}

#[test]
fn converts_polish_symbols() {
    let result = apply_spoken_symbols("pięć procent", SpeechLanguage::Polish);
    assert_eq!(result, "pięć %");
}

#[test]
fn converts_english_special_symbols() {
    let result = apply_spoken_symbols(
        "hash dollar percent caret ampersand asterisk underscore equals plus",
        SpeechLanguage::English,
    );
    assert_eq!(result, "# $ % ^ & * _ = +");
}

#[test]
fn converts_polish_brackets_and_punctuation() {
    let result = apply_spoken_symbols(
        "nawias kwadratowy otwierający x nawias kwadratowy zamykający tylda grawis",
        SpeechLanguage::Polish,
    );
    assert_eq!(result, "[ x ] ~ `");
}

#[test]
fn converts_polish_at_and_exclamation() {
    let result = apply_spoken_symbols("znak małpy test wykrzyknik", SpeechLanguage::Polish);
    assert_eq!(result, "@ test !");
}

#[test]
fn adjusts_first_letter_case() {
    assert_eq!(adjust_first_letter_case("Hello", false), "hello");
    assert_eq!(adjust_first_letter_case("hello", true), "Hello");
}

#[test]
fn first_letter_case_of_empty_and_multi_char_mappings() {
    assert_eq!(adjust_first_letter_case("", true), "");
    assert_eq!(adjust_first_letter_case("ßa", true), "SSa");
    assert_eq!(adjust_first_letter_case("Łódź", false), "łódź");
    assert_eq!(adjust_first_letter_case("1abc", true), "1abc");
}

#[test]
fn selected_language_decides_first() {
    assert_eq!(resolve_speech_language("pl-PL", "en"), SpeechLanguage::Polish);
    assert_eq!(resolve_speech_language("EN", "pl"), SpeechLanguage::English);
    assert_eq!(resolve_speech_language("auto", "PL"), SpeechLanguage::Polish);
    assert_eq!(resolve_speech_language("auto", "de"), SpeechLanguage::English);
    assert_eq!(resolve_speech_language("p", "pl"), SpeechLanguage::Polish);
    assert_eq!(resolve_speech_language("", ""), SpeechLanguage::English);
}

#[test]
fn numbers_keep_surrounding_text() {
    assert_eq!(
        apply_spoken_numbers("I have two cats and one dog.", SpeechLanguage::English),
        "I have 2 cats and 1 dog."
    );
    assert_eq!(apply_spoken_numbers("no numbers here", SpeechLanguage::English), "no numbers here");
    assert_eq!(apply_spoken_numbers("", SpeechLanguage::English), "");
}

#[test]
fn digit_runs_read_digit_by_digit() {
    assert_eq!(apply_spoken_numbers("oh oh seven", SpeechLanguage::English), "7");
    assert_eq!(apply_spoken_numbers("One, two. Three", SpeechLanguage::English), "123");
    assert_eq!(apply_spoken_numbers("zero", SpeechLanguage::English), "0");
}

#[test]
fn compound_numbers() {
    assert_eq!(
        apply_spoken_numbers("two thousand twenty four", SpeechLanguage::English),
        "2024"
    );
    assert_eq!(apply_spoken_numbers("hundred", SpeechLanguage::English), "100");
    assert_eq!(apply_spoken_numbers("twenty one apples", SpeechLanguage::English), "21 apples");
    assert_eq!(apply_spoken_numbers("tysiąc pięćset", SpeechLanguage::Polish), "1500");
    assert_eq!(apply_spoken_numbers("PIĘĆ", SpeechLanguage::Polish), "5");
}

#[test]
fn too_long_digit_runs_stay_words() {
    let nines = "nine ".repeat(21);
    let text = nines.trim_end();
    // 21 or 20 nines do not fit in u64: the run is kept word by word until
    // the remaining run fits.
    let expected = format!("nine nine {}", "9".repeat(19));
    assert_eq!(apply_spoken_numbers(text, SpeechLanguage::English), expected);
}

#[test]
fn overflowing_compound_is_refused() {
    let text = "hundred ".repeat(10) + "ten";
    assert_eq!(try_apply_spoken_numbers(&text, SpeechLanguage::English), None);
    assert_eq!(
        try_apply_spoken_numbers("one hundred", SpeechLanguage::English),
        Some("100".to_string())
    );
}

#[test]
fn symbols_keep_plain_text() {
    assert_eq!(apply_spoken_symbols("hello world", SpeechLanguage::English), "hello world");
    assert_eq!(apply_spoken_symbols("", SpeechLanguage::Polish), "");
}

#[test]
fn multi_word_symbol_consumes_all_its_words() {
    assert_eq!(
        apply_spoken_symbols("open paren x close paren", SpeechLanguage::English),
        "( x )"
    );
    assert_eq!(apply_spoken_symbols("Question Mark", SpeechLanguage::English), "?");
    assert_eq!(apply_spoken_symbols("at sign", SpeechLanguage::English), "@");
}

#[test]
fn multi_word_symbol_with_wider_spacing_consumes_first_word() {
    // The joined phrase "at sign" does not occur with two spaces, so only the
    // first word is consumed and "sign" stays.
    assert_eq!(apply_spoken_symbols("at  sign", SpeechLanguage::English), "@  sign");
}

#[test]
fn symbol_tables_list_longest_phrases_first() {
    for table in [english_symbol_map(), polish_symbol_map()] {
        for pair in table.windows(2) {
            assert!(pair[0].0.len() >= pair[1].0.len());
        }
    }
}

#[test]
fn tokens_normalize_polish_letters_and_ascii_case() {
    let word: Vec<char> = "ŻÓŁW".chars().collect();
    let expected: Vec<char> = "zolw".chars().collect();
    assert_eq!(normalize_token(&word), expected);
}

#[test]
fn longest_phrase_wins() {
    // "percent" alone is a phrase too; the longer "percent sign" takes both words.
    assert_eq!(apply_spoken_symbols("5 percent sign", SpeechLanguage::English), "5 %");
    assert_eq!(apply_spoken_symbols("5 percent", SpeechLanguage::English), "5 %");
}

#[test]
fn polish_spellings_with_and_without_diacritics_agree() {
    assert_eq!(
        apply_spoken_symbols("a małpa b", SpeechLanguage::Polish),
        apply_spoken_symbols("a malpa b", SpeechLanguage::Polish)
    );
    assert_eq!(apply_spoken_numbers("tysiąc", SpeechLanguage::Polish), "1000");
    assert_eq!(apply_spoken_numbers("tysiac", SpeechLanguage::Polish), "1000");
    assert_eq!(apply_spoken_numbers("dwadzieścia", SpeechLanguage::Polish), "20");
}

#[test]
fn ascii_first_letter_case() {
    assert_eq!(adjust_first_letter_case("Hello", false), "hello");
    assert_eq!(adjust_first_letter_case("hello", true), "Hello");
    assert_eq!(adjust_first_letter_case("1abc", true), "1abc");
}

#[test]
fn english_symbol_phrases_are_listed_once() {
    let table = english_symbol_map();
    for (i, a) in table.iter().enumerate() {
        for b in &table[i + 1..] {
            assert_ne!(a.0, b.0);
        }
    }
}
