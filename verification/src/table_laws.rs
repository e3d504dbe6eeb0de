//! Laws of the constant tables, checked entry by entry: Polish number words
//! are listed once and every spelling of one reads as its value; Polish
//! phrases that are the same spoken words give the same symbol; English
//! symbol phrases are listed once.

use vstd::prelude::*;
use crate::text_chars::{lemma_name_lt_irreflexive, lemma_name_lt_transitive, name_lt};
use crate::text_postprocess::{
    lookup_number_from, normalize, number_value, SpeechLanguage, ENGLISH_SYMBOLS, POLISH_NUMBER_WORDS,
    POLISH_SYMBOLS,
};

verus! {

/// The values that Polish number words carry: 0 to 20, the tens from 30 to
/// 90, the hundreds from 100 to 900, and 1000.
pub open spec fn polish_number_value(v: u64) -> bool {
    v <= 20 || (v <= 90 && v % 10 == 0) || (v <= 900 && v % 100 == 0) || v == 1000
}

/// The folded spelling of the Polish number word at `k` is the one at `j`,
/// with the same value.
pub open spec fn twin_at(k: int, j: int) -> bool {
    &&& 0 <= j < POLISH_NUMBER_WORDS@.len()
    &&& POLISH_NUMBER_WORDS@[j].0@ == normalize(POLISH_NUMBER_WORDS@[k].0@)
    &&& POLISH_NUMBER_WORDS@[j].1 == POLISH_NUMBER_WORDS@[k].1
}

/// The Polish number word at `k` has its folded twin in the table.
pub open spec fn has_twin(k: int) -> bool {
    exists|j: int| #[trigger] twin_at(k, j)
}

/// Every spelling in the Polish number table has its folded twin (no
/// diacritics, lower case) in the table with the same value, so a word is
/// found whichever way it is spelled: the table's lookup goes by the folded
/// word. Every value is a value of a Polish number word.
#[verifier::rlimit(100)]
pub proof fn lemma_polish_number_twins()
    ensures
        forall|k: int|
            0 <= k < POLISH_NUMBER_WORDS@.len() ==> polish_number_value(#[trigger] POLISH_NUMBER_WORDS@[k].1),
        forall|k: int| 0 <= k < POLISH_NUMBER_WORDS@.len() ==> #[trigger] has_twin(k),
{
    assert(twin_at(0, 0)) by {
        assert(POLISH_NUMBER_WORDS@[0].0 == "zero");
        reveal_strlit("zero");
        assert(normalize("zero"@) =~= "zero"@);
    }
    assert(twin_at(1, 1)) by {
        assert(POLISH_NUMBER_WORDS@[1].0 == "jeden");
        reveal_strlit("jeden");
        assert(normalize("jeden"@) =~= "jeden"@);
    }
    assert(twin_at(2, 2)) by {
        assert(POLISH_NUMBER_WORDS@[2].0 == "jedna");
        reveal_strlit("jedna");
        assert(normalize("jedna"@) =~= "jedna"@);
    }
    assert(twin_at(3, 3)) by {
        assert(POLISH_NUMBER_WORDS@[3].0 == "jedno");
        reveal_strlit("jedno");
        assert(normalize("jedno"@) =~= "jedno"@);
    }
    assert(twin_at(4, 4)) by {
        assert(POLISH_NUMBER_WORDS@[4].0 == "dwa");
        reveal_strlit("dwa");
        assert(normalize("dwa"@) =~= "dwa"@);
    }
    assert(twin_at(5, 5)) by {
        assert(POLISH_NUMBER_WORDS@[5].0 == "dwie");
        reveal_strlit("dwie");
        assert(normalize("dwie"@) =~= "dwie"@);
    }
    assert(twin_at(6, 6)) by {
        assert(POLISH_NUMBER_WORDS@[6].0 == "trzy");
        reveal_strlit("trzy");
        assert(normalize("trzy"@) =~= "trzy"@);
    }
    assert(twin_at(7, 7)) by {
        assert(POLISH_NUMBER_WORDS@[7].0 == "cztery");
        reveal_strlit("cztery");
        assert(normalize("cztery"@) =~= "cztery"@);
    }
    assert(twin_at(8, 8)) by {
        assert(POLISH_NUMBER_WORDS@[8].0 == "piec");
        reveal_strlit("piec");
        assert(normalize("piec"@) =~= "piec"@);
    }
    assert(twin_at(9, 8)) by {
        assert(POLISH_NUMBER_WORDS@[9].0 == "pięć");
        assert(POLISH_NUMBER_WORDS@[8].0 == "piec");
        reveal_strlit("piec");
        reveal_strlit("pięć");
        assert(normalize("pięć"@) =~= "piec"@);
    }
    assert(twin_at(10, 10)) by {
        assert(POLISH_NUMBER_WORDS@[10].0 == "szesc");
        reveal_strlit("szesc");
        assert(normalize("szesc"@) =~= "szesc"@);
    }
    assert(twin_at(11, 10)) by {
        assert(POLISH_NUMBER_WORDS@[11].0 == "sześć");
        assert(POLISH_NUMBER_WORDS@[10].0 == "szesc");
        reveal_strlit("szesc");
        reveal_strlit("sześć");
        assert(normalize("sześć"@) =~= "szesc"@);
    }
    assert(twin_at(12, 12)) by {
        assert(POLISH_NUMBER_WORDS@[12].0 == "siedem");
        reveal_strlit("siedem");
        assert(normalize("siedem"@) =~= "siedem"@);
    }
    assert(twin_at(13, 13)) by {
        assert(POLISH_NUMBER_WORDS@[13].0 == "osiem");
        reveal_strlit("osiem");
        assert(normalize("osiem"@) =~= "osiem"@);
    }
    assert(twin_at(14, 14)) by {
        assert(POLISH_NUMBER_WORDS@[14].0 == "dziewiec");
        reveal_strlit("dziewiec");
        assert(normalize("dziewiec"@) =~= "dziewiec"@);
    }
    assert(twin_at(15, 14)) by {
        assert(POLISH_NUMBER_WORDS@[15].0 == "dziewięć");
        assert(POLISH_NUMBER_WORDS@[14].0 == "dziewiec");
        reveal_strlit("dziewiec");
        reveal_strlit("dziewięć");
        assert(normalize("dziewięć"@) =~= "dziewiec"@);
    }
    assert(twin_at(16, 16)) by {
        assert(POLISH_NUMBER_WORDS@[16].0 == "dziesiec");
        reveal_strlit("dziesiec");
        assert(normalize("dziesiec"@) =~= "dziesiec"@);
    }
    assert(twin_at(17, 16)) by {
        assert(POLISH_NUMBER_WORDS@[17].0 == "dziesięć");
        assert(POLISH_NUMBER_WORDS@[16].0 == "dziesiec");
        reveal_strlit("dziesiec");
        reveal_strlit("dziesięć");
        assert(normalize("dziesięć"@) =~= "dziesiec"@);
    }
    assert(twin_at(18, 18)) by {
        assert(POLISH_NUMBER_WORDS@[18].0 == "jedenascie");
        reveal_strlit("jedenascie");
        assert(normalize("jedenascie"@) =~= "jedenascie"@);
    }
    assert(twin_at(19, 18)) by {
        assert(POLISH_NUMBER_WORDS@[19].0 == "jedenaście");
        assert(POLISH_NUMBER_WORDS@[18].0 == "jedenascie");
        reveal_strlit("jedenascie");
        reveal_strlit("jedenaście");
        assert(normalize("jedenaście"@) =~= "jedenascie"@);
    }
    assert(twin_at(20, 20)) by {
        assert(POLISH_NUMBER_WORDS@[20].0 == "dwanascie");
        reveal_strlit("dwanascie");
        assert(normalize("dwanascie"@) =~= "dwanascie"@);
    }
    assert(twin_at(21, 20)) by {
        assert(POLISH_NUMBER_WORDS@[21].0 == "dwanaście");
        assert(POLISH_NUMBER_WORDS@[20].0 == "dwanascie");
        reveal_strlit("dwanascie");
        reveal_strlit("dwanaście");
        assert(normalize("dwanaście"@) =~= "dwanascie"@);
    }
    assert(twin_at(22, 22)) by {
        assert(POLISH_NUMBER_WORDS@[22].0 == "trzynascie");
        reveal_strlit("trzynascie");
        assert(normalize("trzynascie"@) =~= "trzynascie"@);
    }
    assert(twin_at(23, 22)) by {
        assert(POLISH_NUMBER_WORDS@[23].0 == "trzynaście");
        assert(POLISH_NUMBER_WORDS@[22].0 == "trzynascie");
        reveal_strlit("trzynascie");
        reveal_strlit("trzynaście");
        assert(normalize("trzynaście"@) =~= "trzynascie"@);
    }
    assert(twin_at(24, 24)) by {
        assert(POLISH_NUMBER_WORDS@[24].0 == "czternascie");
        reveal_strlit("czternascie");
        assert(normalize("czternascie"@) =~= "czternascie"@);
    }
    assert(twin_at(25, 24)) by {
        assert(POLISH_NUMBER_WORDS@[25].0 == "czternaście");
        assert(POLISH_NUMBER_WORDS@[24].0 == "czternascie");
        reveal_strlit("czternascie");
        reveal_strlit("czternaście");
        assert(normalize("czternaście"@) =~= "czternascie"@);
    }
    assert(twin_at(26, 26)) by {
        assert(POLISH_NUMBER_WORDS@[26].0 == "pietnascie");
        reveal_strlit("pietnascie");
        assert(normalize("pietnascie"@) =~= "pietnascie"@);
    }
    assert(twin_at(27, 26)) by {
        assert(POLISH_NUMBER_WORDS@[27].0 == "piętnaście");
        assert(POLISH_NUMBER_WORDS@[26].0 == "pietnascie");
        reveal_strlit("pietnascie");
        reveal_strlit("piętnaście");
        assert(normalize("piętnaście"@) =~= "pietnascie"@);
    }
    assert(twin_at(28, 28)) by {
        assert(POLISH_NUMBER_WORDS@[28].0 == "szesnascie");
        reveal_strlit("szesnascie");
        assert(normalize("szesnascie"@) =~= "szesnascie"@);
    }
    assert(twin_at(29, 28)) by {
        assert(POLISH_NUMBER_WORDS@[29].0 == "szesnaście");
        assert(POLISH_NUMBER_WORDS@[28].0 == "szesnascie");
        reveal_strlit("szesnascie");
        reveal_strlit("szesnaście");
        assert(normalize("szesnaście"@) =~= "szesnascie"@);
    }
    assert(twin_at(30, 30)) by {
        assert(POLISH_NUMBER_WORDS@[30].0 == "siedemnascie");
        reveal_strlit("siedemnascie");
        assert(normalize("siedemnascie"@) =~= "siedemnascie"@);
    }
    assert(twin_at(31, 30)) by {
        assert(POLISH_NUMBER_WORDS@[31].0 == "siedemnaście");
        assert(POLISH_NUMBER_WORDS@[30].0 == "siedemnascie");
        reveal_strlit("siedemnascie");
        reveal_strlit("siedemnaście");
        assert(normalize("siedemnaście"@) =~= "siedemnascie"@);
    }
    assert(twin_at(32, 32)) by {
        assert(POLISH_NUMBER_WORDS@[32].0 == "osiemnascie");
        reveal_strlit("osiemnascie");
        assert(normalize("osiemnascie"@) =~= "osiemnascie"@);
    }
    assert(twin_at(33, 32)) by {
        assert(POLISH_NUMBER_WORDS@[33].0 == "osiemnaście");
        assert(POLISH_NUMBER_WORDS@[32].0 == "osiemnascie");
        reveal_strlit("osiemnascie");
        reveal_strlit("osiemnaście");
        assert(normalize("osiemnaście"@) =~= "osiemnascie"@);
    }
    assert(twin_at(34, 34)) by {
        assert(POLISH_NUMBER_WORDS@[34].0 == "dziewietnascie");
        reveal_strlit("dziewietnascie");
        assert(normalize("dziewietnascie"@) =~= "dziewietnascie"@);
    }
    assert(twin_at(35, 34)) by {
        assert(POLISH_NUMBER_WORDS@[35].0 == "dziewiętnaście");
        assert(POLISH_NUMBER_WORDS@[34].0 == "dziewietnascie");
        reveal_strlit("dziewietnascie");
        reveal_strlit("dziewiętnaście");
        assert(normalize("dziewiętnaście"@) =~= "dziewietnascie"@);
    }
    assert(twin_at(36, 36)) by {
        assert(POLISH_NUMBER_WORDS@[36].0 == "dwadziescia");
        reveal_strlit("dwadziescia");
        assert(normalize("dwadziescia"@) =~= "dwadziescia"@);
    }
    assert(twin_at(37, 36)) by {
        assert(POLISH_NUMBER_WORDS@[37].0 == "dwadzieścia");
        assert(POLISH_NUMBER_WORDS@[36].0 == "dwadziescia");
        reveal_strlit("dwadziescia");
        reveal_strlit("dwadzieścia");
        assert(normalize("dwadzieścia"@) =~= "dwadziescia"@);
    }
    assert(twin_at(38, 38)) by {
        assert(POLISH_NUMBER_WORDS@[38].0 == "trzydziesci");
        reveal_strlit("trzydziesci");
        assert(normalize("trzydziesci"@) =~= "trzydziesci"@);
    }
    assert(twin_at(39, 38)) by {
        assert(POLISH_NUMBER_WORDS@[39].0 == "trzydzieści");
        assert(POLISH_NUMBER_WORDS@[38].0 == "trzydziesci");
        reveal_strlit("trzydziesci");
        reveal_strlit("trzydzieści");
        assert(normalize("trzydzieści"@) =~= "trzydziesci"@);
    }
    assert(twin_at(40, 40)) by {
        assert(POLISH_NUMBER_WORDS@[40].0 == "czterdziesci");
        reveal_strlit("czterdziesci");
        assert(normalize("czterdziesci"@) =~= "czterdziesci"@);
    }
    assert(twin_at(41, 40)) by {
        assert(POLISH_NUMBER_WORDS@[41].0 == "czterdzieści");
        assert(POLISH_NUMBER_WORDS@[40].0 == "czterdziesci");
        reveal_strlit("czterdziesci");
        reveal_strlit("czterdzieści");
        assert(normalize("czterdzieści"@) =~= "czterdziesci"@);
    }
    assert(twin_at(42, 42)) by {
        assert(POLISH_NUMBER_WORDS@[42].0 == "piecdziesiat");
        reveal_strlit("piecdziesiat");
        assert(normalize("piecdziesiat"@) =~= "piecdziesiat"@);
    }
    assert(twin_at(43, 42)) by {
        assert(POLISH_NUMBER_WORDS@[43].0 == "pięćdziesiąt");
        assert(POLISH_NUMBER_WORDS@[42].0 == "piecdziesiat");
        reveal_strlit("piecdziesiat");
        reveal_strlit("pięćdziesiąt");
        assert(normalize("pięćdziesiąt"@) =~= "piecdziesiat"@);
    }
    assert(twin_at(44, 44)) by {
        assert(POLISH_NUMBER_WORDS@[44].0 == "szescdziesiat");
        reveal_strlit("szescdziesiat");
        assert(normalize("szescdziesiat"@) =~= "szescdziesiat"@);
    }
    assert(twin_at(45, 44)) by {
        assert(POLISH_NUMBER_WORDS@[45].0 == "sześćdziesiąt");
        assert(POLISH_NUMBER_WORDS@[44].0 == "szescdziesiat");
        reveal_strlit("szescdziesiat");
        reveal_strlit("sześćdziesiąt");
        assert(normalize("sześćdziesiąt"@) =~= "szescdziesiat"@);
    }
    assert(twin_at(46, 46)) by {
        assert(POLISH_NUMBER_WORDS@[46].0 == "siedemdziesiat");
        reveal_strlit("siedemdziesiat");
        assert(normalize("siedemdziesiat"@) =~= "siedemdziesiat"@);
    }
    assert(twin_at(47, 46)) by {
        assert(POLISH_NUMBER_WORDS@[47].0 == "siedemdziesiąt");
        assert(POLISH_NUMBER_WORDS@[46].0 == "siedemdziesiat");
        reveal_strlit("siedemdziesiat");
        reveal_strlit("siedemdziesiąt");
        assert(normalize("siedemdziesiąt"@) =~= "siedemdziesiat"@);
    }
    assert(twin_at(48, 48)) by {
        assert(POLISH_NUMBER_WORDS@[48].0 == "osiemdziesiat");
        reveal_strlit("osiemdziesiat");
        assert(normalize("osiemdziesiat"@) =~= "osiemdziesiat"@);
    }
    assert(twin_at(49, 48)) by {
        assert(POLISH_NUMBER_WORDS@[49].0 == "osiemdziesiąt");
        assert(POLISH_NUMBER_WORDS@[48].0 == "osiemdziesiat");
        reveal_strlit("osiemdziesiat");
        reveal_strlit("osiemdziesiąt");
        assert(normalize("osiemdziesiąt"@) =~= "osiemdziesiat"@);
    }
    assert(twin_at(50, 50)) by {
        assert(POLISH_NUMBER_WORDS@[50].0 == "dziewiecdziesiat");
        reveal_strlit("dziewiecdziesiat");
        assert(normalize("dziewiecdziesiat"@) =~= "dziewiecdziesiat"@);
    }
    assert(twin_at(51, 50)) by {
        assert(POLISH_NUMBER_WORDS@[51].0 == "dziewięćdziesiąt");
        assert(POLISH_NUMBER_WORDS@[50].0 == "dziewiecdziesiat");
        reveal_strlit("dziewiecdziesiat");
        reveal_strlit("dziewięćdziesiąt");
        assert(normalize("dziewięćdziesiąt"@) =~= "dziewiecdziesiat"@);
    }
    assert(twin_at(52, 52)) by {
        assert(POLISH_NUMBER_WORDS@[52].0 == "sto");
        reveal_strlit("sto");
        assert(normalize("sto"@) =~= "sto"@);
    }
    assert(twin_at(53, 53)) by {
        assert(POLISH_NUMBER_WORDS@[53].0 == "dwiescie");
        reveal_strlit("dwiescie");
        assert(normalize("dwiescie"@) =~= "dwiescie"@);
    }
    assert(twin_at(54, 53)) by {
        assert(POLISH_NUMBER_WORDS@[54].0 == "dwieście");
        assert(POLISH_NUMBER_WORDS@[53].0 == "dwiescie");
        reveal_strlit("dwiescie");
        reveal_strlit("dwieście");
        assert(normalize("dwieście"@) =~= "dwiescie"@);
    }
    assert(twin_at(55, 55)) by {
        assert(POLISH_NUMBER_WORDS@[55].0 == "trzysta");
        reveal_strlit("trzysta");
        assert(normalize("trzysta"@) =~= "trzysta"@);
    }
    assert(twin_at(56, 56)) by {
        assert(POLISH_NUMBER_WORDS@[56].0 == "czterysta");
        reveal_strlit("czterysta");
        assert(normalize("czterysta"@) =~= "czterysta"@);
    }
    assert(twin_at(57, 57)) by {
        assert(POLISH_NUMBER_WORDS@[57].0 == "piecset");
        reveal_strlit("piecset");
        assert(normalize("piecset"@) =~= "piecset"@);
    }
    assert(twin_at(58, 57)) by {
        assert(POLISH_NUMBER_WORDS@[58].0 == "pięćset");
        assert(POLISH_NUMBER_WORDS@[57].0 == "piecset");
        reveal_strlit("piecset");
        reveal_strlit("pięćset");
        assert(normalize("pięćset"@) =~= "piecset"@);
    }
    assert(twin_at(59, 59)) by {
        assert(POLISH_NUMBER_WORDS@[59].0 == "szescset");
        reveal_strlit("szescset");
        assert(normalize("szescset"@) =~= "szescset"@);
    }
    assert(twin_at(60, 59)) by {
        assert(POLISH_NUMBER_WORDS@[60].0 == "sześćset");
        assert(POLISH_NUMBER_WORDS@[59].0 == "szescset");
        reveal_strlit("szescset");
        reveal_strlit("sześćset");
        assert(normalize("sześćset"@) =~= "szescset"@);
    }
    assert(twin_at(61, 61)) by {
        assert(POLISH_NUMBER_WORDS@[61].0 == "siedemset");
        reveal_strlit("siedemset");
        assert(normalize("siedemset"@) =~= "siedemset"@);
    }
    assert(twin_at(62, 62)) by {
        assert(POLISH_NUMBER_WORDS@[62].0 == "osiemset");
        reveal_strlit("osiemset");
        assert(normalize("osiemset"@) =~= "osiemset"@);
    }
    assert(twin_at(63, 63)) by {
        assert(POLISH_NUMBER_WORDS@[63].0 == "dziewiecset");
        reveal_strlit("dziewiecset");
        assert(normalize("dziewiecset"@) =~= "dziewiecset"@);
    }
    assert(twin_at(64, 63)) by {
        assert(POLISH_NUMBER_WORDS@[64].0 == "dziewięćset");
        assert(POLISH_NUMBER_WORDS@[63].0 == "dziewiecset");
        reveal_strlit("dziewiecset");
        reveal_strlit("dziewięćset");
        assert(normalize("dziewięćset"@) =~= "dziewiecset"@);
    }
    assert(twin_at(65, 65)) by {
        assert(POLISH_NUMBER_WORDS@[65].0 == "tysiac");
        reveal_strlit("tysiac");
        assert(normalize("tysiac"@) =~= "tysiac"@);
    }
    assert(twin_at(66, 65)) by {
        assert(POLISH_NUMBER_WORDS@[66].0 == "tysiąc");
        assert(POLISH_NUMBER_WORDS@[65].0 == "tysiac");
        reveal_strlit("tysiac");
        reveal_strlit("tysiąc");
        assert(normalize("tysiąc"@) =~= "tysiac"@);
    }
    assert forall|k: int| 0 <= k < POLISH_NUMBER_WORDS@.len() implies polish_number_value(
        #[trigger] POLISH_NUMBER_WORDS@[k].1,
    ) by {
        assert(twin_at(k, k) || !twin_at(k, k));
    }
    assert forall|k: int| 0 <= k < POLISH_NUMBER_WORDS@.len() implies #[trigger] has_twin(k) by {
        if k == 0 { assert(twin_at(0, 0)); }
        if k == 1 { assert(twin_at(1, 1)); }
        if k == 2 { assert(twin_at(2, 2)); }
        if k == 3 { assert(twin_at(3, 3)); }
        if k == 4 { assert(twin_at(4, 4)); }
        if k == 5 { assert(twin_at(5, 5)); }
        if k == 6 { assert(twin_at(6, 6)); }
        if k == 7 { assert(twin_at(7, 7)); }
        if k == 8 { assert(twin_at(8, 8)); }
        if k == 9 { assert(twin_at(9, 8)); }
        if k == 10 { assert(twin_at(10, 10)); }
        if k == 11 { assert(twin_at(11, 10)); }
        if k == 12 { assert(twin_at(12, 12)); }
        if k == 13 { assert(twin_at(13, 13)); }
        if k == 14 { assert(twin_at(14, 14)); }
        if k == 15 { assert(twin_at(15, 14)); }
        if k == 16 { assert(twin_at(16, 16)); }
        if k == 17 { assert(twin_at(17, 16)); }
        if k == 18 { assert(twin_at(18, 18)); }
        if k == 19 { assert(twin_at(19, 18)); }
        if k == 20 { assert(twin_at(20, 20)); }
        if k == 21 { assert(twin_at(21, 20)); }
        if k == 22 { assert(twin_at(22, 22)); }
        if k == 23 { assert(twin_at(23, 22)); }
        if k == 24 { assert(twin_at(24, 24)); }
        if k == 25 { assert(twin_at(25, 24)); }
        if k == 26 { assert(twin_at(26, 26)); }
        if k == 27 { assert(twin_at(27, 26)); }
        if k == 28 { assert(twin_at(28, 28)); }
        if k == 29 { assert(twin_at(29, 28)); }
        if k == 30 { assert(twin_at(30, 30)); }
        if k == 31 { assert(twin_at(31, 30)); }
        if k == 32 { assert(twin_at(32, 32)); }
        if k == 33 { assert(twin_at(33, 32)); }
        if k == 34 { assert(twin_at(34, 34)); }
        if k == 35 { assert(twin_at(35, 34)); }
        if k == 36 { assert(twin_at(36, 36)); }
        if k == 37 { assert(twin_at(37, 36)); }
        if k == 38 { assert(twin_at(38, 38)); }
        if k == 39 { assert(twin_at(39, 38)); }
        if k == 40 { assert(twin_at(40, 40)); }
        if k == 41 { assert(twin_at(41, 40)); }
        if k == 42 { assert(twin_at(42, 42)); }
        if k == 43 { assert(twin_at(43, 42)); }
        if k == 44 { assert(twin_at(44, 44)); }
        if k == 45 { assert(twin_at(45, 44)); }
        if k == 46 { assert(twin_at(46, 46)); }
        if k == 47 { assert(twin_at(47, 46)); }
        if k == 48 { assert(twin_at(48, 48)); }
        if k == 49 { assert(twin_at(49, 48)); }
        if k == 50 { assert(twin_at(50, 50)); }
        if k == 51 { assert(twin_at(51, 50)); }
        if k == 52 { assert(twin_at(52, 52)); }
        if k == 53 { assert(twin_at(53, 53)); }
        if k == 54 { assert(twin_at(54, 53)); }
        if k == 55 { assert(twin_at(55, 55)); }
        if k == 56 { assert(twin_at(56, 56)); }
        if k == 57 { assert(twin_at(57, 57)); }
        if k == 58 { assert(twin_at(58, 57)); }
        if k == 59 { assert(twin_at(59, 59)); }
        if k == 60 { assert(twin_at(60, 59)); }
        if k == 61 { assert(twin_at(61, 61)); }
        if k == 62 { assert(twin_at(62, 62)); }
        if k == 63 { assert(twin_at(63, 63)); }
        if k == 64 { assert(twin_at(64, 63)); }
        if k == 65 { assert(twin_at(65, 65)); }
        if k == 66 { assert(twin_at(66, 65)); }
    }
}

/// The Polish number words, each with its place in the table, in strictly
/// increasing order of code points.
pub open spec fn polish_number_index() -> Seq<(Seq<char>, int)> {
    seq![
        ("czterdziesci"@, 40int),
        ("czterdzieści"@, 41int),
        ("czternascie"@, 24int),
        ("czternaście"@, 25int),
        ("cztery"@, 7int),
        ("czterysta"@, 56int),
        ("dwa"@, 4int),
        ("dwadziescia"@, 36int),
        ("dwadzieścia"@, 37int),
        ("dwanascie"@, 20int),
        ("dwanaście"@, 21int),
        ("dwie"@, 5int),
        ("dwiescie"@, 53int),
        ("dwieście"@, 54int),
        ("dziesiec"@, 16int),
        ("dziesięć"@, 17int),
        ("dziewiec"@, 14int),
        ("dziewiecdziesiat"@, 50int),
        ("dziewiecset"@, 63int),
        ("dziewietnascie"@, 34int),
        ("dziewiętnaście"@, 35int),
        ("dziewięć"@, 15int),
        ("dziewięćdziesiąt"@, 51int),
        ("dziewięćset"@, 64int),
        ("jeden"@, 1int),
        ("jedenascie"@, 18int),
        ("jedenaście"@, 19int),
        ("jedna"@, 2int),
        ("jedno"@, 3int),
        ("osiem"@, 13int),
        ("osiemdziesiat"@, 48int),
        ("osiemdziesiąt"@, 49int),
        ("osiemnascie"@, 32int),
        ("osiemnaście"@, 33int),
        ("osiemset"@, 62int),
        ("piec"@, 8int),
        ("piecdziesiat"@, 42int),
        ("piecset"@, 57int),
        ("pietnascie"@, 26int),
        ("piętnaście"@, 27int),
        ("pięć"@, 9int),
        ("pięćdziesiąt"@, 43int),
        ("pięćset"@, 58int),
        ("siedem"@, 12int),
        ("siedemdziesiat"@, 46int),
        ("siedemdziesiąt"@, 47int),
        ("siedemnascie"@, 30int),
        ("siedemnaście"@, 31int),
        ("siedemset"@, 61int),
        ("sto"@, 52int),
        ("szesc"@, 10int),
        ("szescdziesiat"@, 44int),
        ("szescset"@, 59int),
        ("szesnascie"@, 28int),
        ("szesnaście"@, 29int),
        ("sześć"@, 11int),
        ("sześćdziesiąt"@, 45int),
        ("sześćset"@, 60int),
        ("trzy"@, 6int),
        ("trzydziesci"@, 38int),
        ("trzydzieści"@, 39int),
        ("trzynascie"@, 22int),
        ("trzynaście"@, 23int),
        ("trzysta"@, 55int),
        ("tysiac"@, 65int),
        ("tysiąc"@, 66int),
        ("zero"@, 0int),
    ]
}

/// The Polish number word at `k` is the one at `g` of the index.
pub open spec fn number_indexed_at(k: int, g: int) -> bool {
    &&& 0 <= g < polish_number_index().len()
    &&& polish_number_index()[g].0 == POLISH_NUMBER_WORDS@[k].0@
    &&& polish_number_index()[g].1 == k
}

pub open spec fn number_indexed(k: int) -> bool {
    exists|g: int| #[trigger] number_indexed_at(k, g)
}

#[verifier::rlimit(100)]
proof fn lemma_polish_numbers_indexed()
    ensures
        forall|k: int| 0 <= k < POLISH_NUMBER_WORDS@.len() ==> #[trigger] number_indexed(k),
{
    assert(number_indexed_at(0, 66)) by {
        assert(POLISH_NUMBER_WORDS@[0].0 == "zero");
        assert(polish_number_index()[66] == ("zero"@, 0int));
    }
    assert(number_indexed_at(1, 24)) by {
        assert(POLISH_NUMBER_WORDS@[1].0 == "jeden");
        assert(polish_number_index()[24] == ("jeden"@, 1int));
    }
    assert(number_indexed_at(2, 27)) by {
        assert(POLISH_NUMBER_WORDS@[2].0 == "jedna");
        assert(polish_number_index()[27] == ("jedna"@, 2int));
    }
    assert(number_indexed_at(3, 28)) by {
        assert(POLISH_NUMBER_WORDS@[3].0 == "jedno");
        assert(polish_number_index()[28] == ("jedno"@, 3int));
    }
    assert(number_indexed_at(4, 6)) by {
        assert(POLISH_NUMBER_WORDS@[4].0 == "dwa");
        assert(polish_number_index()[6] == ("dwa"@, 4int));
    }
    assert(number_indexed_at(5, 11)) by {
        assert(POLISH_NUMBER_WORDS@[5].0 == "dwie");
        assert(polish_number_index()[11] == ("dwie"@, 5int));
    }
    assert(number_indexed_at(6, 58)) by {
        assert(POLISH_NUMBER_WORDS@[6].0 == "trzy");
        assert(polish_number_index()[58] == ("trzy"@, 6int));
    }
    assert(number_indexed_at(7, 4)) by {
        assert(POLISH_NUMBER_WORDS@[7].0 == "cztery");
        assert(polish_number_index()[4] == ("cztery"@, 7int));
    }
    assert(number_indexed_at(8, 35)) by {
        assert(POLISH_NUMBER_WORDS@[8].0 == "piec");
        assert(polish_number_index()[35] == ("piec"@, 8int));
    }
    assert(number_indexed_at(9, 40)) by {
        assert(POLISH_NUMBER_WORDS@[9].0 == "pięć");
        assert(polish_number_index()[40] == ("pięć"@, 9int));
    }
    assert(number_indexed_at(10, 50)) by {
        assert(POLISH_NUMBER_WORDS@[10].0 == "szesc");
        assert(polish_number_index()[50] == ("szesc"@, 10int));
    }
    assert(number_indexed_at(11, 55)) by {
        assert(POLISH_NUMBER_WORDS@[11].0 == "sześć");
        assert(polish_number_index()[55] == ("sześć"@, 11int));
    }
    assert(number_indexed_at(12, 43)) by {
        assert(POLISH_NUMBER_WORDS@[12].0 == "siedem");
        assert(polish_number_index()[43] == ("siedem"@, 12int));
    }
    assert(number_indexed_at(13, 29)) by {
        assert(POLISH_NUMBER_WORDS@[13].0 == "osiem");
        assert(polish_number_index()[29] == ("osiem"@, 13int));
    }
    assert(number_indexed_at(14, 16)) by {
        assert(POLISH_NUMBER_WORDS@[14].0 == "dziewiec");
        assert(polish_number_index()[16] == ("dziewiec"@, 14int));
    }
    assert(number_indexed_at(15, 21)) by {
        assert(POLISH_NUMBER_WORDS@[15].0 == "dziewięć");
        assert(polish_number_index()[21] == ("dziewięć"@, 15int));
    }
    assert(number_indexed_at(16, 14)) by {
        assert(POLISH_NUMBER_WORDS@[16].0 == "dziesiec");
        assert(polish_number_index()[14] == ("dziesiec"@, 16int));
    }
    assert(number_indexed_at(17, 15)) by {
        assert(POLISH_NUMBER_WORDS@[17].0 == "dziesięć");
        assert(polish_number_index()[15] == ("dziesięć"@, 17int));
    }
    assert(number_indexed_at(18, 25)) by {
        assert(POLISH_NUMBER_WORDS@[18].0 == "jedenascie");
        assert(polish_number_index()[25] == ("jedenascie"@, 18int));
    }
    assert(number_indexed_at(19, 26)) by {
        assert(POLISH_NUMBER_WORDS@[19].0 == "jedenaście");
        assert(polish_number_index()[26] == ("jedenaście"@, 19int));
    }
    assert(number_indexed_at(20, 9)) by {
        assert(POLISH_NUMBER_WORDS@[20].0 == "dwanascie");
        assert(polish_number_index()[9] == ("dwanascie"@, 20int));
    }
    assert(number_indexed_at(21, 10)) by {
        assert(POLISH_NUMBER_WORDS@[21].0 == "dwanaście");
        assert(polish_number_index()[10] == ("dwanaście"@, 21int));
    }
    assert(number_indexed_at(22, 61)) by {
        assert(POLISH_NUMBER_WORDS@[22].0 == "trzynascie");
        assert(polish_number_index()[61] == ("trzynascie"@, 22int));
    }
    assert(number_indexed_at(23, 62)) by {
        assert(POLISH_NUMBER_WORDS@[23].0 == "trzynaście");
        assert(polish_number_index()[62] == ("trzynaście"@, 23int));
    }
    assert(number_indexed_at(24, 2)) by {
        assert(POLISH_NUMBER_WORDS@[24].0 == "czternascie");
        assert(polish_number_index()[2] == ("czternascie"@, 24int));
    }
    assert(number_indexed_at(25, 3)) by {
        assert(POLISH_NUMBER_WORDS@[25].0 == "czternaście");
        assert(polish_number_index()[3] == ("czternaście"@, 25int));
    }
    assert(number_indexed_at(26, 38)) by {
        assert(POLISH_NUMBER_WORDS@[26].0 == "pietnascie");
        assert(polish_number_index()[38] == ("pietnascie"@, 26int));
    }
    assert(number_indexed_at(27, 39)) by {
        assert(POLISH_NUMBER_WORDS@[27].0 == "piętnaście");
        assert(polish_number_index()[39] == ("piętnaście"@, 27int));
    }
    assert(number_indexed_at(28, 53)) by {
        assert(POLISH_NUMBER_WORDS@[28].0 == "szesnascie");
        assert(polish_number_index()[53] == ("szesnascie"@, 28int));
    }
    assert(number_indexed_at(29, 54)) by {
        assert(POLISH_NUMBER_WORDS@[29].0 == "szesnaście");
        assert(polish_number_index()[54] == ("szesnaście"@, 29int));
    }
    assert(number_indexed_at(30, 46)) by {
        assert(POLISH_NUMBER_WORDS@[30].0 == "siedemnascie");
        assert(polish_number_index()[46] == ("siedemnascie"@, 30int));
    }
    assert(number_indexed_at(31, 47)) by {
        assert(POLISH_NUMBER_WORDS@[31].0 == "siedemnaście");
        assert(polish_number_index()[47] == ("siedemnaście"@, 31int));
    }
    assert(number_indexed_at(32, 32)) by {
        assert(POLISH_NUMBER_WORDS@[32].0 == "osiemnascie");
        assert(polish_number_index()[32] == ("osiemnascie"@, 32int));
    }
    assert(number_indexed_at(33, 33)) by {
        assert(POLISH_NUMBER_WORDS@[33].0 == "osiemnaście");
        assert(polish_number_index()[33] == ("osiemnaście"@, 33int));
    }
    assert(number_indexed_at(34, 19)) by {
        assert(POLISH_NUMBER_WORDS@[34].0 == "dziewietnascie");
        assert(polish_number_index()[19] == ("dziewietnascie"@, 34int));
    }
    assert(number_indexed_at(35, 20)) by {
        assert(POLISH_NUMBER_WORDS@[35].0 == "dziewiętnaście");
        assert(polish_number_index()[20] == ("dziewiętnaście"@, 35int));
    }
    assert(number_indexed_at(36, 7)) by {
        assert(POLISH_NUMBER_WORDS@[36].0 == "dwadziescia");
        assert(polish_number_index()[7] == ("dwadziescia"@, 36int));
    }
    assert(number_indexed_at(37, 8)) by {
        assert(POLISH_NUMBER_WORDS@[37].0 == "dwadzieścia");
        assert(polish_number_index()[8] == ("dwadzieścia"@, 37int));
    }
    assert(number_indexed_at(38, 59)) by {
        assert(POLISH_NUMBER_WORDS@[38].0 == "trzydziesci");
        assert(polish_number_index()[59] == ("trzydziesci"@, 38int));
    }
    assert(number_indexed_at(39, 60)) by {
        assert(POLISH_NUMBER_WORDS@[39].0 == "trzydzieści");
        assert(polish_number_index()[60] == ("trzydzieści"@, 39int));
    }
    assert(number_indexed_at(40, 0)) by {
        assert(POLISH_NUMBER_WORDS@[40].0 == "czterdziesci");
        assert(polish_number_index()[0] == ("czterdziesci"@, 40int));
    }
    assert(number_indexed_at(41, 1)) by {
        assert(POLISH_NUMBER_WORDS@[41].0 == "czterdzieści");
        assert(polish_number_index()[1] == ("czterdzieści"@, 41int));
    }
    assert(number_indexed_at(42, 36)) by {
        assert(POLISH_NUMBER_WORDS@[42].0 == "piecdziesiat");
        assert(polish_number_index()[36] == ("piecdziesiat"@, 42int));
    }
    assert(number_indexed_at(43, 41)) by {
        assert(POLISH_NUMBER_WORDS@[43].0 == "pięćdziesiąt");
        assert(polish_number_index()[41] == ("pięćdziesiąt"@, 43int));
    }
    assert(number_indexed_at(44, 51)) by {
        assert(POLISH_NUMBER_WORDS@[44].0 == "szescdziesiat");
        assert(polish_number_index()[51] == ("szescdziesiat"@, 44int));
    }
    assert(number_indexed_at(45, 56)) by {
        assert(POLISH_NUMBER_WORDS@[45].0 == "sześćdziesiąt");
        assert(polish_number_index()[56] == ("sześćdziesiąt"@, 45int));
    }
    assert(number_indexed_at(46, 44)) by {
        assert(POLISH_NUMBER_WORDS@[46].0 == "siedemdziesiat");
        assert(polish_number_index()[44] == ("siedemdziesiat"@, 46int));
    }
    assert(number_indexed_at(47, 45)) by {
        assert(POLISH_NUMBER_WORDS@[47].0 == "siedemdziesiąt");
        assert(polish_number_index()[45] == ("siedemdziesiąt"@, 47int));
    }
    assert(number_indexed_at(48, 30)) by {
        assert(POLISH_NUMBER_WORDS@[48].0 == "osiemdziesiat");
        assert(polish_number_index()[30] == ("osiemdziesiat"@, 48int));
    }
    assert(number_indexed_at(49, 31)) by {
        assert(POLISH_NUMBER_WORDS@[49].0 == "osiemdziesiąt");
        assert(polish_number_index()[31] == ("osiemdziesiąt"@, 49int));
    }
    assert(number_indexed_at(50, 17)) by {
        assert(POLISH_NUMBER_WORDS@[50].0 == "dziewiecdziesiat");
        assert(polish_number_index()[17] == ("dziewiecdziesiat"@, 50int));
    }
    assert(number_indexed_at(51, 22)) by {
        assert(POLISH_NUMBER_WORDS@[51].0 == "dziewięćdziesiąt");
        assert(polish_number_index()[22] == ("dziewięćdziesiąt"@, 51int));
    }
    assert(number_indexed_at(52, 49)) by {
        assert(POLISH_NUMBER_WORDS@[52].0 == "sto");
        assert(polish_number_index()[49] == ("sto"@, 52int));
    }
    assert(number_indexed_at(53, 12)) by {
        assert(POLISH_NUMBER_WORDS@[53].0 == "dwiescie");
        assert(polish_number_index()[12] == ("dwiescie"@, 53int));
    }
    assert(number_indexed_at(54, 13)) by {
        assert(POLISH_NUMBER_WORDS@[54].0 == "dwieście");
        assert(polish_number_index()[13] == ("dwieście"@, 54int));
    }
    assert(number_indexed_at(55, 63)) by {
        assert(POLISH_NUMBER_WORDS@[55].0 == "trzysta");
        assert(polish_number_index()[63] == ("trzysta"@, 55int));
    }
    assert(number_indexed_at(56, 5)) by {
        assert(POLISH_NUMBER_WORDS@[56].0 == "czterysta");
        assert(polish_number_index()[5] == ("czterysta"@, 56int));
    }
    assert(number_indexed_at(57, 37)) by {
        assert(POLISH_NUMBER_WORDS@[57].0 == "piecset");
        assert(polish_number_index()[37] == ("piecset"@, 57int));
    }
    assert(number_indexed_at(58, 42)) by {
        assert(POLISH_NUMBER_WORDS@[58].0 == "pięćset");
        assert(polish_number_index()[42] == ("pięćset"@, 58int));
    }
    assert(number_indexed_at(59, 52)) by {
        assert(POLISH_NUMBER_WORDS@[59].0 == "szescset");
        assert(polish_number_index()[52] == ("szescset"@, 59int));
    }
    assert(number_indexed_at(60, 57)) by {
        assert(POLISH_NUMBER_WORDS@[60].0 == "sześćset");
        assert(polish_number_index()[57] == ("sześćset"@, 60int));
    }
    assert(number_indexed_at(61, 48)) by {
        assert(POLISH_NUMBER_WORDS@[61].0 == "siedemset");
        assert(polish_number_index()[48] == ("siedemset"@, 61int));
    }
    assert(number_indexed_at(62, 34)) by {
        assert(POLISH_NUMBER_WORDS@[62].0 == "osiemset");
        assert(polish_number_index()[34] == ("osiemset"@, 62int));
    }
    assert(number_indexed_at(63, 18)) by {
        assert(POLISH_NUMBER_WORDS@[63].0 == "dziewiecset");
        assert(polish_number_index()[18] == ("dziewiecset"@, 63int));
    }
    assert(number_indexed_at(64, 23)) by {
        assert(POLISH_NUMBER_WORDS@[64].0 == "dziewięćset");
        assert(polish_number_index()[23] == ("dziewięćset"@, 64int));
    }
    assert(number_indexed_at(65, 64)) by {
        assert(POLISH_NUMBER_WORDS@[65].0 == "tysiac");
        assert(polish_number_index()[64] == ("tysiac"@, 65int));
    }
    assert(number_indexed_at(66, 65)) by {
        assert(POLISH_NUMBER_WORDS@[66].0 == "tysiąc");
        assert(polish_number_index()[65] == ("tysiąc"@, 66int));
    }
    assert forall|k: int| 0 <= k < POLISH_NUMBER_WORDS@.len() implies #[trigger] number_indexed(k) by {
        if k == 0 {
            assert(number_indexed_at(0, 66));
        }
        if k == 1 {
            assert(number_indexed_at(1, 24));
        }
        if k == 2 {
            assert(number_indexed_at(2, 27));
        }
        if k == 3 {
            assert(number_indexed_at(3, 28));
        }
        if k == 4 {
            assert(number_indexed_at(4, 6));
        }
        if k == 5 {
            assert(number_indexed_at(5, 11));
        }
        if k == 6 {
            assert(number_indexed_at(6, 58));
        }
        if k == 7 {
            assert(number_indexed_at(7, 4));
        }
        if k == 8 {
            assert(number_indexed_at(8, 35));
        }
        if k == 9 {
            assert(number_indexed_at(9, 40));
        }
        if k == 10 {
            assert(number_indexed_at(10, 50));
        }
        if k == 11 {
            assert(number_indexed_at(11, 55));
        }
        if k == 12 {
            assert(number_indexed_at(12, 43));
        }
        if k == 13 {
            assert(number_indexed_at(13, 29));
        }
        if k == 14 {
            assert(number_indexed_at(14, 16));
        }
        if k == 15 {
            assert(number_indexed_at(15, 21));
        }
        if k == 16 {
            assert(number_indexed_at(16, 14));
        }
        if k == 17 {
            assert(number_indexed_at(17, 15));
        }
        if k == 18 {
            assert(number_indexed_at(18, 25));
        }
        if k == 19 {
            assert(number_indexed_at(19, 26));
        }
        if k == 20 {
            assert(number_indexed_at(20, 9));
        }
        if k == 21 {
            assert(number_indexed_at(21, 10));
        }
        if k == 22 {
            assert(number_indexed_at(22, 61));
        }
        if k == 23 {
            assert(number_indexed_at(23, 62));
        }
        if k == 24 {
            assert(number_indexed_at(24, 2));
        }
        if k == 25 {
            assert(number_indexed_at(25, 3));
        }
        if k == 26 {
            assert(number_indexed_at(26, 38));
        }
        if k == 27 {
            assert(number_indexed_at(27, 39));
        }
        if k == 28 {
            assert(number_indexed_at(28, 53));
        }
        if k == 29 {
            assert(number_indexed_at(29, 54));
        }
        if k == 30 {
            assert(number_indexed_at(30, 46));
        }
        if k == 31 {
            assert(number_indexed_at(31, 47));
        }
        if k == 32 {
            assert(number_indexed_at(32, 32));
        }
        if k == 33 {
            assert(number_indexed_at(33, 33));
        }
        if k == 34 {
            assert(number_indexed_at(34, 19));
        }
        if k == 35 {
            assert(number_indexed_at(35, 20));
        }
        if k == 36 {
            assert(number_indexed_at(36, 7));
        }
        if k == 37 {
            assert(number_indexed_at(37, 8));
        }
        if k == 38 {
            assert(number_indexed_at(38, 59));
        }
        if k == 39 {
            assert(number_indexed_at(39, 60));
        }
        if k == 40 {
            assert(number_indexed_at(40, 0));
        }
        if k == 41 {
            assert(number_indexed_at(41, 1));
        }
        if k == 42 {
            assert(number_indexed_at(42, 36));
        }
        if k == 43 {
            assert(number_indexed_at(43, 41));
        }
        if k == 44 {
            assert(number_indexed_at(44, 51));
        }
        if k == 45 {
            assert(number_indexed_at(45, 56));
        }
        if k == 46 {
            assert(number_indexed_at(46, 44));
        }
        if k == 47 {
            assert(number_indexed_at(47, 45));
        }
        if k == 48 {
            assert(number_indexed_at(48, 30));
        }
        if k == 49 {
            assert(number_indexed_at(49, 31));
        }
        if k == 50 {
            assert(number_indexed_at(50, 17));
        }
        if k == 51 {
            assert(number_indexed_at(51, 22));
        }
        if k == 52 {
            assert(number_indexed_at(52, 49));
        }
        if k == 53 {
            assert(number_indexed_at(53, 12));
        }
        if k == 54 {
            assert(number_indexed_at(54, 13));
        }
        if k == 55 {
            assert(number_indexed_at(55, 63));
        }
        if k == 56 {
            assert(number_indexed_at(56, 5));
        }
        if k == 57 {
            assert(number_indexed_at(57, 37));
        }
        if k == 58 {
            assert(number_indexed_at(58, 42));
        }
        if k == 59 {
            assert(number_indexed_at(59, 52));
        }
        if k == 60 {
            assert(number_indexed_at(60, 57));
        }
        if k == 61 {
            assert(number_indexed_at(61, 48));
        }
        if k == 62 {
            assert(number_indexed_at(62, 34));
        }
        if k == 63 {
            assert(number_indexed_at(63, 18));
        }
        if k == 64 {
            assert(number_indexed_at(64, 23));
        }
        if k == 65 {
            assert(number_indexed_at(65, 64));
        }
        if k == 66 {
            assert(number_indexed_at(66, 65));
        }
    }
}

#[verifier::rlimit(100)]
proof fn lemma_polish_number_index_steps()
    ensures
        forall|a: int|
            0 <= a < polish_number_index().len() - 1 ==> name_lt(
                #[trigger] polish_number_index()[a].0,
                polish_number_index()[a + 1].0,
            ),
{
    assert(name_lt(polish_number_index()[0].0, polish_number_index()[1].0)) by {
        assert(polish_number_index()[0].0 == "czterdziesci"@);
        assert(polish_number_index()[1].0 == "czterdzieści"@);
        reveal_strlit("czterdziesci");
        reveal_strlit("czterdzieści");
        reveal_with_fuel(name_lt, 11);
    }
    assert(name_lt(polish_number_index()[1].0, polish_number_index()[2].0)) by {
        assert(polish_number_index()[1].0 == "czterdzieści"@);
        assert(polish_number_index()[2].0 == "czternascie"@);
        reveal_strlit("czterdzieści");
        reveal_strlit("czternascie");
        reveal_with_fuel(name_lt, 7);
    }
    assert(name_lt(polish_number_index()[2].0, polish_number_index()[3].0)) by {
        assert(polish_number_index()[2].0 == "czternascie"@);
        assert(polish_number_index()[3].0 == "czternaście"@);
        reveal_strlit("czternascie");
        reveal_strlit("czternaście");
        reveal_with_fuel(name_lt, 9);
    }
    assert(name_lt(polish_number_index()[3].0, polish_number_index()[4].0)) by {
        assert(polish_number_index()[3].0 == "czternaście"@);
        assert(polish_number_index()[4].0 == "cztery"@);
        reveal_strlit("czternaście");
        reveal_strlit("cztery");
        reveal_with_fuel(name_lt, 7);
    }
    assert(name_lt(polish_number_index()[4].0, polish_number_index()[5].0)) by {
        assert(polish_number_index()[4].0 == "cztery"@);
        assert(polish_number_index()[5].0 == "czterysta"@);
        reveal_strlit("cztery");
        reveal_strlit("czterysta");
        reveal_with_fuel(name_lt, 8);
    }
    assert(name_lt(polish_number_index()[5].0, polish_number_index()[6].0)) by {
        assert(polish_number_index()[5].0 == "czterysta"@);
        assert(polish_number_index()[6].0 == "dwa"@);
        reveal_strlit("czterysta");
        reveal_strlit("dwa");
        reveal_with_fuel(name_lt, 2);
    }
    assert(name_lt(polish_number_index()[6].0, polish_number_index()[7].0)) by {
        assert(polish_number_index()[6].0 == "dwa"@);
        assert(polish_number_index()[7].0 == "dwadziescia"@);
        reveal_strlit("dwa");
        reveal_strlit("dwadziescia");
        reveal_with_fuel(name_lt, 5);
    }
    assert(name_lt(polish_number_index()[7].0, polish_number_index()[8].0)) by {
        assert(polish_number_index()[7].0 == "dwadziescia"@);
        assert(polish_number_index()[8].0 == "dwadzieścia"@);
        reveal_strlit("dwadziescia");
        reveal_strlit("dwadzieścia");
        reveal_with_fuel(name_lt, 9);
    }
    assert(name_lt(polish_number_index()[8].0, polish_number_index()[9].0)) by {
        assert(polish_number_index()[8].0 == "dwadzieścia"@);
        assert(polish_number_index()[9].0 == "dwanascie"@);
        reveal_strlit("dwadzieścia");
        reveal_strlit("dwanascie");
        reveal_with_fuel(name_lt, 5);
    }
    assert(name_lt(polish_number_index()[9].0, polish_number_index()[10].0)) by {
        assert(polish_number_index()[9].0 == "dwanascie"@);
        assert(polish_number_index()[10].0 == "dwanaście"@);
        reveal_strlit("dwanascie");
        reveal_strlit("dwanaście");
        reveal_with_fuel(name_lt, 7);
    }
    assert(name_lt(polish_number_index()[10].0, polish_number_index()[11].0)) by {
        assert(polish_number_index()[10].0 == "dwanaście"@);
        assert(polish_number_index()[11].0 == "dwie"@);
        reveal_strlit("dwanaście");
        reveal_strlit("dwie");
        reveal_with_fuel(name_lt, 4);
    }
    assert(name_lt(polish_number_index()[11].0, polish_number_index()[12].0)) by {
        assert(polish_number_index()[11].0 == "dwie"@);
        assert(polish_number_index()[12].0 == "dwiescie"@);
        reveal_strlit("dwie");
        reveal_strlit("dwiescie");
        reveal_with_fuel(name_lt, 6);
    }
    assert(name_lt(polish_number_index()[12].0, polish_number_index()[13].0)) by {
        assert(polish_number_index()[12].0 == "dwiescie"@);
        assert(polish_number_index()[13].0 == "dwieście"@);
        reveal_strlit("dwiescie");
        reveal_strlit("dwieście");
        reveal_with_fuel(name_lt, 6);
    }
    assert(name_lt(polish_number_index()[13].0, polish_number_index()[14].0)) by {
        assert(polish_number_index()[13].0 == "dwieście"@);
        assert(polish_number_index()[14].0 == "dziesiec"@);
        reveal_strlit("dwieście");
        reveal_strlit("dziesiec");
        reveal_with_fuel(name_lt, 3);
    }
    assert(name_lt(polish_number_index()[14].0, polish_number_index()[15].0)) by {
        assert(polish_number_index()[14].0 == "dziesiec"@);
        assert(polish_number_index()[15].0 == "dziesięć"@);
        reveal_strlit("dziesiec");
        reveal_strlit("dziesięć");
        reveal_with_fuel(name_lt, 8);
    }
    assert(name_lt(polish_number_index()[15].0, polish_number_index()[16].0)) by {
        assert(polish_number_index()[15].0 == "dziesięć"@);
        assert(polish_number_index()[16].0 == "dziewiec"@);
        reveal_strlit("dziesięć");
        reveal_strlit("dziewiec");
        reveal_with_fuel(name_lt, 6);
    }
    assert(name_lt(polish_number_index()[16].0, polish_number_index()[17].0)) by {
        assert(polish_number_index()[16].0 == "dziewiec"@);
        assert(polish_number_index()[17].0 == "dziewiecdziesiat"@);
        reveal_strlit("dziewiec");
        reveal_strlit("dziewiecdziesiat");
        reveal_with_fuel(name_lt, 10);
    }
    assert(name_lt(polish_number_index()[17].0, polish_number_index()[18].0)) by {
        assert(polish_number_index()[17].0 == "dziewiecdziesiat"@);
        assert(polish_number_index()[18].0 == "dziewiecset"@);
        reveal_strlit("dziewiecdziesiat");
        reveal_strlit("dziewiecset");
        reveal_with_fuel(name_lt, 10);
    }
    assert(name_lt(polish_number_index()[18].0, polish_number_index()[19].0)) by {
        assert(polish_number_index()[18].0 == "dziewiecset"@);
        assert(polish_number_index()[19].0 == "dziewietnascie"@);
        reveal_strlit("dziewiecset");
        reveal_strlit("dziewietnascie");
        reveal_with_fuel(name_lt, 9);
    }
    assert(name_lt(polish_number_index()[19].0, polish_number_index()[20].0)) by {
        assert(polish_number_index()[19].0 == "dziewietnascie"@);
        assert(polish_number_index()[20].0 == "dziewiętnaście"@);
        reveal_strlit("dziewietnascie");
        reveal_strlit("dziewiętnaście");
        reveal_with_fuel(name_lt, 8);
    }
    assert(name_lt(polish_number_index()[20].0, polish_number_index()[21].0)) by {
        assert(polish_number_index()[20].0 == "dziewiętnaście"@);
        assert(polish_number_index()[21].0 == "dziewięć"@);
        reveal_strlit("dziewiętnaście");
        reveal_strlit("dziewięć");
        reveal_with_fuel(name_lt, 9);
    }
    assert(name_lt(polish_number_index()[21].0, polish_number_index()[22].0)) by {
        assert(polish_number_index()[21].0 == "dziewięć"@);
        assert(polish_number_index()[22].0 == "dziewięćdziesiąt"@);
        reveal_strlit("dziewięć");
        reveal_strlit("dziewięćdziesiąt");
        reveal_with_fuel(name_lt, 10);
    }
    assert(name_lt(polish_number_index()[22].0, polish_number_index()[23].0)) by {
        assert(polish_number_index()[22].0 == "dziewięćdziesiąt"@);
        assert(polish_number_index()[23].0 == "dziewięćset"@);
        reveal_strlit("dziewięćdziesiąt");
        reveal_strlit("dziewięćset");
        reveal_with_fuel(name_lt, 10);
    }
    assert(name_lt(polish_number_index()[23].0, polish_number_index()[24].0)) by {
        assert(polish_number_index()[23].0 == "dziewięćset"@);
        assert(polish_number_index()[24].0 == "jeden"@);
        reveal_strlit("dziewięćset");
        reveal_strlit("jeden");
        reveal_with_fuel(name_lt, 2);
    }
    assert(name_lt(polish_number_index()[24].0, polish_number_index()[25].0)) by {
        assert(polish_number_index()[24].0 == "jeden"@);
        assert(polish_number_index()[25].0 == "jedenascie"@);
        reveal_strlit("jeden");
        reveal_strlit("jedenascie");
        reveal_with_fuel(name_lt, 7);
    }
    assert(name_lt(polish_number_index()[25].0, polish_number_index()[26].0)) by {
        assert(polish_number_index()[25].0 == "jedenascie"@);
        assert(polish_number_index()[26].0 == "jedenaście"@);
        reveal_strlit("jedenascie");
        reveal_strlit("jedenaście");
        reveal_with_fuel(name_lt, 8);
    }
    assert(name_lt(polish_number_index()[26].0, polish_number_index()[27].0)) by {
        assert(polish_number_index()[26].0 == "jedenaście"@);
        assert(polish_number_index()[27].0 == "jedna"@);
        reveal_strlit("jedenaście");
        reveal_strlit("jedna");
        reveal_with_fuel(name_lt, 5);
    }
    assert(name_lt(polish_number_index()[27].0, polish_number_index()[28].0)) by {
        assert(polish_number_index()[27].0 == "jedna"@);
        assert(polish_number_index()[28].0 == "jedno"@);
        reveal_strlit("jedna");
        reveal_strlit("jedno");
        reveal_with_fuel(name_lt, 6);
    }
    assert(name_lt(polish_number_index()[28].0, polish_number_index()[29].0)) by {
        assert(polish_number_index()[28].0 == "jedno"@);
        assert(polish_number_index()[29].0 == "osiem"@);
        reveal_strlit("jedno");
        reveal_strlit("osiem");
        reveal_with_fuel(name_lt, 2);
    }
    assert(name_lt(polish_number_index()[29].0, polish_number_index()[30].0)) by {
        assert(polish_number_index()[29].0 == "osiem"@);
        assert(polish_number_index()[30].0 == "osiemdziesiat"@);
        reveal_strlit("osiem");
        reveal_strlit("osiemdziesiat");
        reveal_with_fuel(name_lt, 7);
    }
    assert(name_lt(polish_number_index()[30].0, polish_number_index()[31].0)) by {
        assert(polish_number_index()[30].0 == "osiemdziesiat"@);
        assert(polish_number_index()[31].0 == "osiemdziesiąt"@);
        reveal_strlit("osiemdziesiat");
        reveal_strlit("osiemdziesiąt");
        reveal_with_fuel(name_lt, 13);
    }
    assert(name_lt(polish_number_index()[31].0, polish_number_index()[32].0)) by {
        assert(polish_number_index()[31].0 == "osiemdziesiąt"@);
        assert(polish_number_index()[32].0 == "osiemnascie"@);
        reveal_strlit("osiemdziesiąt");
        reveal_strlit("osiemnascie");
        reveal_with_fuel(name_lt, 7);
    }
    assert(name_lt(polish_number_index()[32].0, polish_number_index()[33].0)) by {
        assert(polish_number_index()[32].0 == "osiemnascie"@);
        assert(polish_number_index()[33].0 == "osiemnaście"@);
        reveal_strlit("osiemnascie");
        reveal_strlit("osiemnaście");
        reveal_with_fuel(name_lt, 9);
    }
    assert(name_lt(polish_number_index()[33].0, polish_number_index()[34].0)) by {
        assert(polish_number_index()[33].0 == "osiemnaście"@);
        assert(polish_number_index()[34].0 == "osiemset"@);
        reveal_strlit("osiemnaście");
        reveal_strlit("osiemset");
        reveal_with_fuel(name_lt, 7);
    }
    assert(name_lt(polish_number_index()[34].0, polish_number_index()[35].0)) by {
        assert(polish_number_index()[34].0 == "osiemset"@);
        assert(polish_number_index()[35].0 == "piec"@);
        reveal_strlit("osiemset");
        reveal_strlit("piec");
        reveal_with_fuel(name_lt, 2);
    }
    assert(name_lt(polish_number_index()[35].0, polish_number_index()[36].0)) by {
        assert(polish_number_index()[35].0 == "piec"@);
        assert(polish_number_index()[36].0 == "piecdziesiat"@);
        reveal_strlit("piec");
        reveal_strlit("piecdziesiat");
        reveal_with_fuel(name_lt, 6);
    }
    assert(name_lt(polish_number_index()[36].0, polish_number_index()[37].0)) by {
        assert(polish_number_index()[36].0 == "piecdziesiat"@);
        assert(polish_number_index()[37].0 == "piecset"@);
        reveal_strlit("piecdziesiat");
        reveal_strlit("piecset");
        reveal_with_fuel(name_lt, 6);
    }
    assert(name_lt(polish_number_index()[37].0, polish_number_index()[38].0)) by {
        assert(polish_number_index()[37].0 == "piecset"@);
        assert(polish_number_index()[38].0 == "pietnascie"@);
        reveal_strlit("piecset");
        reveal_strlit("pietnascie");
        reveal_with_fuel(name_lt, 5);
    }
    assert(name_lt(polish_number_index()[38].0, polish_number_index()[39].0)) by {
        assert(polish_number_index()[38].0 == "pietnascie"@);
        assert(polish_number_index()[39].0 == "piętnaście"@);
        reveal_strlit("pietnascie");
        reveal_strlit("piętnaście");
        reveal_with_fuel(name_lt, 4);
    }
    assert(name_lt(polish_number_index()[39].0, polish_number_index()[40].0)) by {
        assert(polish_number_index()[39].0 == "piętnaście"@);
        assert(polish_number_index()[40].0 == "pięć"@);
        reveal_strlit("piętnaście");
        reveal_strlit("pięć");
        reveal_with_fuel(name_lt, 5);
    }
    assert(name_lt(polish_number_index()[40].0, polish_number_index()[41].0)) by {
        assert(polish_number_index()[40].0 == "pięć"@);
        assert(polish_number_index()[41].0 == "pięćdziesiąt"@);
        reveal_strlit("pięć");
        reveal_strlit("pięćdziesiąt");
        reveal_with_fuel(name_lt, 6);
    }
    assert(name_lt(polish_number_index()[41].0, polish_number_index()[42].0)) by {
        assert(polish_number_index()[41].0 == "pięćdziesiąt"@);
        assert(polish_number_index()[42].0 == "pięćset"@);
        reveal_strlit("pięćdziesiąt");
        reveal_strlit("pięćset");
        reveal_with_fuel(name_lt, 6);
    }
    assert(name_lt(polish_number_index()[42].0, polish_number_index()[43].0)) by {
        assert(polish_number_index()[42].0 == "pięćset"@);
        assert(polish_number_index()[43].0 == "siedem"@);
        reveal_strlit("pięćset");
        reveal_strlit("siedem");
        reveal_with_fuel(name_lt, 2);
    }
    assert(name_lt(polish_number_index()[43].0, polish_number_index()[44].0)) by {
        assert(polish_number_index()[43].0 == "siedem"@);
        assert(polish_number_index()[44].0 == "siedemdziesiat"@);
        reveal_strlit("siedem");
        reveal_strlit("siedemdziesiat");
        reveal_with_fuel(name_lt, 8);
    }
    assert(name_lt(polish_number_index()[44].0, polish_number_index()[45].0)) by {
        assert(polish_number_index()[44].0 == "siedemdziesiat"@);
        assert(polish_number_index()[45].0 == "siedemdziesiąt"@);
        reveal_strlit("siedemdziesiat");
        reveal_strlit("siedemdziesiąt");
        reveal_with_fuel(name_lt, 14);
    }
    assert(name_lt(polish_number_index()[45].0, polish_number_index()[46].0)) by {
        assert(polish_number_index()[45].0 == "siedemdziesiąt"@);
        assert(polish_number_index()[46].0 == "siedemnascie"@);
        reveal_strlit("siedemdziesiąt");
        reveal_strlit("siedemnascie");
        reveal_with_fuel(name_lt, 8);
    }
    assert(name_lt(polish_number_index()[46].0, polish_number_index()[47].0)) by {
        assert(polish_number_index()[46].0 == "siedemnascie"@);
        assert(polish_number_index()[47].0 == "siedemnaście"@);
        reveal_strlit("siedemnascie");
        reveal_strlit("siedemnaście");
        reveal_with_fuel(name_lt, 10);
    }
    assert(name_lt(polish_number_index()[47].0, polish_number_index()[48].0)) by {
        assert(polish_number_index()[47].0 == "siedemnaście"@);
        assert(polish_number_index()[48].0 == "siedemset"@);
        reveal_strlit("siedemnaście");
        reveal_strlit("siedemset");
        reveal_with_fuel(name_lt, 8);
    }
    assert(name_lt(polish_number_index()[48].0, polish_number_index()[49].0)) by {
        assert(polish_number_index()[48].0 == "siedemset"@);
        assert(polish_number_index()[49].0 == "sto"@);
        reveal_strlit("siedemset");
        reveal_strlit("sto");
        reveal_with_fuel(name_lt, 3);
    }
    assert(name_lt(polish_number_index()[49].0, polish_number_index()[50].0)) by {
        assert(polish_number_index()[49].0 == "sto"@);
        assert(polish_number_index()[50].0 == "szesc"@);
        reveal_strlit("sto");
        reveal_strlit("szesc");
        reveal_with_fuel(name_lt, 3);
    }
    assert(name_lt(polish_number_index()[50].0, polish_number_index()[51].0)) by {
        assert(polish_number_index()[50].0 == "szesc"@);
        assert(polish_number_index()[51].0 == "szescdziesiat"@);
        reveal_strlit("szesc");
        reveal_strlit("szescdziesiat");
        reveal_with_fuel(name_lt, 7);
    }
    assert(name_lt(polish_number_index()[51].0, polish_number_index()[52].0)) by {
        assert(polish_number_index()[51].0 == "szescdziesiat"@);
        assert(polish_number_index()[52].0 == "szescset"@);
        reveal_strlit("szescdziesiat");
        reveal_strlit("szescset");
        reveal_with_fuel(name_lt, 7);
    }
    assert(name_lt(polish_number_index()[52].0, polish_number_index()[53].0)) by {
        assert(polish_number_index()[52].0 == "szescset"@);
        assert(polish_number_index()[53].0 == "szesnascie"@);
        reveal_strlit("szescset");
        reveal_strlit("szesnascie");
        reveal_with_fuel(name_lt, 6);
    }
    assert(name_lt(polish_number_index()[53].0, polish_number_index()[54].0)) by {
        assert(polish_number_index()[53].0 == "szesnascie"@);
        assert(polish_number_index()[54].0 == "szesnaście"@);
        reveal_strlit("szesnascie");
        reveal_strlit("szesnaście");
        reveal_with_fuel(name_lt, 8);
    }
    assert(name_lt(polish_number_index()[54].0, polish_number_index()[55].0)) by {
        assert(polish_number_index()[54].0 == "szesnaście"@);
        assert(polish_number_index()[55].0 == "sześć"@);
        reveal_strlit("szesnaście");
        reveal_strlit("sześć");
        reveal_with_fuel(name_lt, 5);
    }
    assert(name_lt(polish_number_index()[55].0, polish_number_index()[56].0)) by {
        assert(polish_number_index()[55].0 == "sześć"@);
        assert(polish_number_index()[56].0 == "sześćdziesiąt"@);
        reveal_strlit("sześć");
        reveal_strlit("sześćdziesiąt");
        reveal_with_fuel(name_lt, 7);
    }
    assert(name_lt(polish_number_index()[56].0, polish_number_index()[57].0)) by {
        assert(polish_number_index()[56].0 == "sześćdziesiąt"@);
        assert(polish_number_index()[57].0 == "sześćset"@);
        reveal_strlit("sześćdziesiąt");
        reveal_strlit("sześćset");
        reveal_with_fuel(name_lt, 7);
    }
    assert(name_lt(polish_number_index()[57].0, polish_number_index()[58].0)) by {
        assert(polish_number_index()[57].0 == "sześćset"@);
        assert(polish_number_index()[58].0 == "trzy"@);
        reveal_strlit("sześćset");
        reveal_strlit("trzy");
        reveal_with_fuel(name_lt, 2);
    }
    assert(name_lt(polish_number_index()[58].0, polish_number_index()[59].0)) by {
        assert(polish_number_index()[58].0 == "trzy"@);
        assert(polish_number_index()[59].0 == "trzydziesci"@);
        reveal_strlit("trzy");
        reveal_strlit("trzydziesci");
        reveal_with_fuel(name_lt, 6);
    }
    assert(name_lt(polish_number_index()[59].0, polish_number_index()[60].0)) by {
        assert(polish_number_index()[59].0 == "trzydziesci"@);
        assert(polish_number_index()[60].0 == "trzydzieści"@);
        reveal_strlit("trzydziesci");
        reveal_strlit("trzydzieści");
        reveal_with_fuel(name_lt, 10);
    }
    assert(name_lt(polish_number_index()[60].0, polish_number_index()[61].0)) by {
        assert(polish_number_index()[60].0 == "trzydzieści"@);
        assert(polish_number_index()[61].0 == "trzynascie"@);
        reveal_strlit("trzydzieści");
        reveal_strlit("trzynascie");
        reveal_with_fuel(name_lt, 6);
    }
    assert(name_lt(polish_number_index()[61].0, polish_number_index()[62].0)) by {
        assert(polish_number_index()[61].0 == "trzynascie"@);
        assert(polish_number_index()[62].0 == "trzynaście"@);
        reveal_strlit("trzynascie");
        reveal_strlit("trzynaście");
        reveal_with_fuel(name_lt, 8);
    }
    assert(name_lt(polish_number_index()[62].0, polish_number_index()[63].0)) by {
        assert(polish_number_index()[62].0 == "trzynaście"@);
        assert(polish_number_index()[63].0 == "trzysta"@);
        reveal_strlit("trzynaście");
        reveal_strlit("trzysta");
        reveal_with_fuel(name_lt, 6);
    }
    assert(name_lt(polish_number_index()[63].0, polish_number_index()[64].0)) by {
        assert(polish_number_index()[63].0 == "trzysta"@);
        assert(polish_number_index()[64].0 == "tysiac"@);
        reveal_strlit("trzysta");
        reveal_strlit("tysiac");
        reveal_with_fuel(name_lt, 3);
    }
    assert(name_lt(polish_number_index()[64].0, polish_number_index()[65].0)) by {
        assert(polish_number_index()[64].0 == "tysiac"@);
        assert(polish_number_index()[65].0 == "tysiąc"@);
        reveal_strlit("tysiac");
        reveal_strlit("tysiąc");
        reveal_with_fuel(name_lt, 6);
    }
    assert(name_lt(polish_number_index()[65].0, polish_number_index()[66].0)) by {
        assert(polish_number_index()[65].0 == "tysiąc"@);
        assert(polish_number_index()[66].0 == "zero"@);
        reveal_strlit("tysiąc");
        reveal_strlit("zero");
        reveal_with_fuel(name_lt, 2);
    }
    assert forall|a: int| 0 <= a < polish_number_index().len() - 1 implies name_lt(
        #[trigger] polish_number_index()[a].0,
        polish_number_index()[a + 1].0,
    ) by {
        if a == 0 {
            assert(name_lt(polish_number_index()[0].0, polish_number_index()[1].0));
        }
        if a == 1 {
            assert(name_lt(polish_number_index()[1].0, polish_number_index()[2].0));
        }
        if a == 2 {
            assert(name_lt(polish_number_index()[2].0, polish_number_index()[3].0));
        }
        if a == 3 {
            assert(name_lt(polish_number_index()[3].0, polish_number_index()[4].0));
        }
        if a == 4 {
            assert(name_lt(polish_number_index()[4].0, polish_number_index()[5].0));
        }
        if a == 5 {
            assert(name_lt(polish_number_index()[5].0, polish_number_index()[6].0));
        }
        if a == 6 {
            assert(name_lt(polish_number_index()[6].0, polish_number_index()[7].0));
        }
        if a == 7 {
            assert(name_lt(polish_number_index()[7].0, polish_number_index()[8].0));
        }
        if a == 8 {
            assert(name_lt(polish_number_index()[8].0, polish_number_index()[9].0));
        }
        if a == 9 {
            assert(name_lt(polish_number_index()[9].0, polish_number_index()[10].0));
        }
        if a == 10 {
            assert(name_lt(polish_number_index()[10].0, polish_number_index()[11].0));
        }
        if a == 11 {
            assert(name_lt(polish_number_index()[11].0, polish_number_index()[12].0));
        }
        if a == 12 {
            assert(name_lt(polish_number_index()[12].0, polish_number_index()[13].0));
        }
        if a == 13 {
            assert(name_lt(polish_number_index()[13].0, polish_number_index()[14].0));
        }
        if a == 14 {
            assert(name_lt(polish_number_index()[14].0, polish_number_index()[15].0));
        }
        if a == 15 {
            assert(name_lt(polish_number_index()[15].0, polish_number_index()[16].0));
        }
        if a == 16 {
            assert(name_lt(polish_number_index()[16].0, polish_number_index()[17].0));
        }
        if a == 17 {
            assert(name_lt(polish_number_index()[17].0, polish_number_index()[18].0));
        }
        if a == 18 {
            assert(name_lt(polish_number_index()[18].0, polish_number_index()[19].0));
        }
        if a == 19 {
            assert(name_lt(polish_number_index()[19].0, polish_number_index()[20].0));
        }
        if a == 20 {
            assert(name_lt(polish_number_index()[20].0, polish_number_index()[21].0));
        }
        if a == 21 {
            assert(name_lt(polish_number_index()[21].0, polish_number_index()[22].0));
        }
        if a == 22 {
            assert(name_lt(polish_number_index()[22].0, polish_number_index()[23].0));
        }
        if a == 23 {
            assert(name_lt(polish_number_index()[23].0, polish_number_index()[24].0));
        }
        if a == 24 {
            assert(name_lt(polish_number_index()[24].0, polish_number_index()[25].0));
        }
        if a == 25 {
            assert(name_lt(polish_number_index()[25].0, polish_number_index()[26].0));
        }
        if a == 26 {
            assert(name_lt(polish_number_index()[26].0, polish_number_index()[27].0));
        }
        if a == 27 {
            assert(name_lt(polish_number_index()[27].0, polish_number_index()[28].0));
        }
        if a == 28 {
            assert(name_lt(polish_number_index()[28].0, polish_number_index()[29].0));
        }
        if a == 29 {
            assert(name_lt(polish_number_index()[29].0, polish_number_index()[30].0));
        }
        if a == 30 {
            assert(name_lt(polish_number_index()[30].0, polish_number_index()[31].0));
        }
        if a == 31 {
            assert(name_lt(polish_number_index()[31].0, polish_number_index()[32].0));
        }
        if a == 32 {
            assert(name_lt(polish_number_index()[32].0, polish_number_index()[33].0));
        }
        if a == 33 {
            assert(name_lt(polish_number_index()[33].0, polish_number_index()[34].0));
        }
        if a == 34 {
            assert(name_lt(polish_number_index()[34].0, polish_number_index()[35].0));
        }
        if a == 35 {
            assert(name_lt(polish_number_index()[35].0, polish_number_index()[36].0));
        }
        if a == 36 {
            assert(name_lt(polish_number_index()[36].0, polish_number_index()[37].0));
        }
        if a == 37 {
            assert(name_lt(polish_number_index()[37].0, polish_number_index()[38].0));
        }
        if a == 38 {
            assert(name_lt(polish_number_index()[38].0, polish_number_index()[39].0));
        }
        if a == 39 {
            assert(name_lt(polish_number_index()[39].0, polish_number_index()[40].0));
        }
        if a == 40 {
            assert(name_lt(polish_number_index()[40].0, polish_number_index()[41].0));
        }
        if a == 41 {
            assert(name_lt(polish_number_index()[41].0, polish_number_index()[42].0));
        }
        if a == 42 {
            assert(name_lt(polish_number_index()[42].0, polish_number_index()[43].0));
        }
        if a == 43 {
            assert(name_lt(polish_number_index()[43].0, polish_number_index()[44].0));
        }
        if a == 44 {
            assert(name_lt(polish_number_index()[44].0, polish_number_index()[45].0));
        }
        if a == 45 {
            assert(name_lt(polish_number_index()[45].0, polish_number_index()[46].0));
        }
        if a == 46 {
            assert(name_lt(polish_number_index()[46].0, polish_number_index()[47].0));
        }
        if a == 47 {
            assert(name_lt(polish_number_index()[47].0, polish_number_index()[48].0));
        }
        if a == 48 {
            assert(name_lt(polish_number_index()[48].0, polish_number_index()[49].0));
        }
        if a == 49 {
            assert(name_lt(polish_number_index()[49].0, polish_number_index()[50].0));
        }
        if a == 50 {
            assert(name_lt(polish_number_index()[50].0, polish_number_index()[51].0));
        }
        if a == 51 {
            assert(name_lt(polish_number_index()[51].0, polish_number_index()[52].0));
        }
        if a == 52 {
            assert(name_lt(polish_number_index()[52].0, polish_number_index()[53].0));
        }
        if a == 53 {
            assert(name_lt(polish_number_index()[53].0, polish_number_index()[54].0));
        }
        if a == 54 {
            assert(name_lt(polish_number_index()[54].0, polish_number_index()[55].0));
        }
        if a == 55 {
            assert(name_lt(polish_number_index()[55].0, polish_number_index()[56].0));
        }
        if a == 56 {
            assert(name_lt(polish_number_index()[56].0, polish_number_index()[57].0));
        }
        if a == 57 {
            assert(name_lt(polish_number_index()[57].0, polish_number_index()[58].0));
        }
        if a == 58 {
            assert(name_lt(polish_number_index()[58].0, polish_number_index()[59].0));
        }
        if a == 59 {
            assert(name_lt(polish_number_index()[59].0, polish_number_index()[60].0));
        }
        if a == 60 {
            assert(name_lt(polish_number_index()[60].0, polish_number_index()[61].0));
        }
        if a == 61 {
            assert(name_lt(polish_number_index()[61].0, polish_number_index()[62].0));
        }
        if a == 62 {
            assert(name_lt(polish_number_index()[62].0, polish_number_index()[63].0));
        }
        if a == 63 {
            assert(name_lt(polish_number_index()[63].0, polish_number_index()[64].0));
        }
        if a == 64 {
            assert(name_lt(polish_number_index()[64].0, polish_number_index()[65].0));
        }
        if a == 65 {
            assert(name_lt(polish_number_index()[65].0, polish_number_index()[66].0));
        }
    }
}

/// The number index is strictly increasing.
proof fn lemma_polish_number_index_sorted(a: int, b: int)
    requires
        0 <= a < b < polish_number_index().len(),
    ensures
        name_lt(polish_number_index()[a].0, polish_number_index()[b].0),
    decreases b - a,
{
    lemma_polish_number_index_steps();
    assert(name_lt(polish_number_index()[b - 1].0, polish_number_index()[b].0));
    if a < b - 1 {
        lemma_polish_number_index_sorted(a, b - 1);
        lemma_name_lt_transitive(
            polish_number_index()[a].0,
            polish_number_index()[b - 1].0,
            polish_number_index()[b].0,
        );
    }
}

/// No word occurs twice in the Polish number table.
pub proof fn lemma_polish_number_words_unique(k1: int, k2: int)
    requires
        0 <= k1 < POLISH_NUMBER_WORDS@.len(),
        0 <= k2 < POLISH_NUMBER_WORDS@.len(),
        k1 != k2,
    ensures
        POLISH_NUMBER_WORDS@[k1].0@ != POLISH_NUMBER_WORDS@[k2].0@,
{
    lemma_polish_numbers_indexed();
    assert(number_indexed(k1));
    assert(number_indexed(k2));
    let g1 = choose|g: int| #[trigger] number_indexed_at(k1, g);
    let g2 = choose|g: int| #[trigger] number_indexed_at(k2, g);
    if POLISH_NUMBER_WORDS@[k1].0@ == POLISH_NUMBER_WORDS@[k2].0@ {
        if g1 < g2 {
            lemma_polish_number_index_sorted(g1, g2);
            lemma_name_lt_irreflexive(polish_number_index()[g1].0);
        } else if g2 < g1 {
            lemma_polish_number_index_sorted(g2, g1);
            lemma_name_lt_irreflexive(polish_number_index()[g2].0);
        }
    }
}

proof fn lemma_lookup_finds(table: Seq<(&'static str, u64)>, key: Seq<char>, i: int, j: int)
    requires
        0 <= i <= j < table.len(),
        table[j].0@ == key,
        forall|m: int| i <= m < j ==> (#[trigger] table[m]).0@ != key,
    ensures
        lookup_number_from(table, key, i) == Some(table[j].1),
    decreases j - i,
{
    if i < j {
        lemma_lookup_finds(table, key, i + 1, j);
    }
}

/// Every spelling in the Polish number table reads as its value: a word of
/// the table, with or without its diacritics, gives the number the table
/// lists for it (as "dwadzieścia" and "dwadziescia" give 20).
pub proof fn lemma_polish_number_spellings(k: int)
    requires
        0 <= k < POLISH_NUMBER_WORDS@.len(),
    ensures
        number_value(POLISH_NUMBER_WORDS@[k].0@, SpeechLanguage::Polish) == Some(POLISH_NUMBER_WORDS@[k].1),
{
    let table = POLISH_NUMBER_WORDS@;
    lemma_polish_number_twins();
    assert(has_twin(k));
    let j = choose|j: int| #[trigger] twin_at(k, j);
    let key = normalize(table[k].0@);
    assert forall|m: int| 0 <= m < j implies (#[trigger] table[m]).0@ != key by {
        lemma_polish_number_words_unique(m, j);
    }
    lemma_lookup_finds(table, key, 0, j);
}

/// The folded phrases of the Polish symbol table, each once, with their
/// symbol, in strictly increasing order of code points.
pub open spec fn polish_symbol_index() -> Seq<(Seq<char>, Seq<char>)> {
    seq![
        ("ampersand"@, "&"@),
        ("apostrof"@, "'"@),
        ("asterisk"@, "*"@),
        ("at"@, "@"@),
        ("backslash"@, "\\"@),
        ("backtick"@, "`"@),
        ("cudzyslow"@, "\""@),
        ("cudzyslow otwarty"@, "\""@),
        ("daszek"@, "^"@),
        ("daszek szybki"@, "^"@),
        ("dolar"@, "$"@),
        ("dwukropek"@, ":"@),
        ("grawis"@, "`"@),
        ("gwiazda"@, "*"@),
        ("gwiazdka"@, "*"@),
        ("hash"@, "#"@),
        ("hasztag"@, "#"@),
        ("kreska"@, "-"@),
        ("kreska pionowa"@, "|"@),
        ("kropka"@, "."@),
        ("kropka na koncu"@, "."@),
        ("krzyzyk"@, "#"@),
        ("malpa"@, "@"@),
        ("minus"@, "-"@),
        ("mniejsze"@, "<"@),
        ("mniejsze niz"@, "<"@),
        ("myslnik"@, "-"@),
        ("nawias klamrowy lewy"@, "{"@),
        ("nawias klamrowy otwarty"@, "{"@),
        ("nawias klamrowy otwierajacy"@, "{"@),
        ("nawias klamrowy prawy"@, "}"@),
        ("nawias klamrowy zamkniety"@, "}"@),
        ("nawias klamrowy zamykajacy"@, "}"@),
        ("nawias kwadratowy lewy"@, "["@),
        ("nawias kwadratowy otwarty"@, "["@),
        ("nawias kwadratowy otwierajacy"@, "["@),
        ("nawias kwadratowy prawy"@, "]"@),
        ("nawias kwadratowy zamkniety"@, "]"@),
        ("nawias kwadratowy zamykajacy"@, "]"@),
        ("nawias lewy"@, "("@),
        ("nawias otwarty"@, "("@),
        ("nawias otwierajacy"@, "("@),
        ("nawias prawy"@, ")"@),
        ("nawias zamkniety"@, ")"@),
        ("nawias zamykajacy"@, ")"@),
        ("pionowa kreska"@, "|"@),
        ("pipe"@, "|"@),
        ("plus"@, "+"@),
        ("podkreslenie"@, "_"@),
        ("procent"@, "%"@),
        ("przecinek"@, ","@),
        ("pytajnik"@, "?"@),
        ("rowna"@, "="@),
        ("rowna sie"@, "="@),
        ("slash"@, "/"@),
        ("srednik"@, ";"@),
        ("tylda"@, "~"@),
        ("ukosnik"@, "/"@),
        ("ukosnik odwrotny"@, "\\"@),
        ("underscore"@, "_"@),
        ("wieksze"@, ">"@),
        ("wieksze niz"@, ">"@),
        ("wykrzyk"@, "!"@),
        ("wykrzyknik"@, "!"@),
        ("znak dolara"@, "$"@),
        ("znak malpy"@, "@"@),
        ("znak mniejszosci"@, "<"@),
        ("znak plus"@, "+"@),
        ("znak procenta"@, "%"@),
        ("znak wiekszosci"@, ">"@),
        ("znak zapytania"@, "?"@),
        ("zykadelko"@, "^"@),
    ]
}

/// A phrase of words separated by single spaces: not empty, no space at
/// either end, no two spaces in a row.
pub open spec fn single_spaced(s: Seq<char>) -> bool {
    &&& s.len() > 0
    &&& s[0] != ' '
    &&& s.last() != ' '
    &&& forall|i: int| 0 <= i < s.len() - 1 && #[trigger] s[i] == ' ' ==> s[i + 1] != ' '
}

/// A character of a spoken phrase: a space, or a lower-case letter of the
/// Polish alphabet (ASCII `a` to `z` or one of `ą ć ę ł ń ó ś ź ż`).
pub open spec fn phrase_char(c: char) -> bool {
    c == ' ' || ('a' <= c <= 'z') || c == 'ą' || c == 'ć' || c == 'ę' || c == 'ł' || c == 'ń' || c == 'ó'
        || c == 'ś' || c == 'ź' || c == 'ż'
}

/// The entry at `k` of the Polish symbol table is a single-spaced phrase
/// of letters with a one-character symbol, and it folds to the phrase at `g` of the
/// index, which carries the same symbol.
pub open spec fn indexed_at(k: int, g: int) -> bool {
    &&& single_spaced(POLISH_SYMBOLS@[k].0@)
    &&& forall|i: int| 0 <= i < POLISH_SYMBOLS@[k].0@.len() ==> #[trigger] phrase_char(POLISH_SYMBOLS@[k].0@[i])
    &&& POLISH_SYMBOLS@[k].1@.len() == 1
    &&& 0 <= g < polish_symbol_index().len()
    &&& polish_symbol_index()[g].0 == normalize(POLISH_SYMBOLS@[k].0@)
    &&& polish_symbol_index()[g].1 == POLISH_SYMBOLS@[k].1@
}

pub open spec fn indexed(k: int) -> bool {
    exists|g: int| #[trigger] indexed_at(k, g)
}

#[verifier::rlimit(100)]
proof fn lemma_polish_symbols_indexed()
    ensures
        forall|k: int| 0 <= k < POLISH_SYMBOLS@.len() ==> #[trigger] indexed(k),
{
    assert(indexed_at(0, 35)) by {
        assert(POLISH_SYMBOLS@[0] == ("nawias kwadratowy otwierający", "["));
        assert(polish_symbol_index()[35] == ("nawias kwadratowy otwierajacy"@, "["@));
        reveal_strlit("nawias kwadratowy otwierajacy");
        reveal_strlit("nawias kwadratowy otwierający");
        reveal_strlit("[");
        assert(normalize("nawias kwadratowy otwierający"@) =~= "nawias kwadratowy otwierajacy"@);
    }
    assert(indexed_at(1, 38)) by {
        assert(POLISH_SYMBOLS@[1] == ("nawias kwadratowy zamykający", "]"));
        assert(polish_symbol_index()[38] == ("nawias kwadratowy zamykajacy"@, "]"@));
        reveal_strlit("nawias kwadratowy zamykajacy");
        reveal_strlit("nawias kwadratowy zamykający");
        reveal_strlit("]");
        assert(normalize("nawias kwadratowy zamykający"@) =~= "nawias kwadratowy zamykajacy"@);
    }
    assert(indexed_at(2, 37)) by {
        assert(POLISH_SYMBOLS@[2] == ("nawias kwadratowy zamknięty", "]"));
        assert(polish_symbol_index()[37] == ("nawias kwadratowy zamkniety"@, "]"@));
        reveal_strlit("nawias kwadratowy zamkniety");
        reveal_strlit("nawias kwadratowy zamknięty");
        reveal_strlit("]");
        assert(normalize("nawias kwadratowy zamknięty"@) =~= "nawias kwadratowy zamkniety"@);
    }
    assert(indexed_at(3, 29)) by {
        assert(POLISH_SYMBOLS@[3] == ("nawias klamrowy otwierający", "{"));
        assert(polish_symbol_index()[29] == ("nawias klamrowy otwierajacy"@, "{"@));
        reveal_strlit("nawias klamrowy otwierajacy");
        reveal_strlit("nawias klamrowy otwierający");
        reveal_strlit("{");
        assert(normalize("nawias klamrowy otwierający"@) =~= "nawias klamrowy otwierajacy"@);
    }
    assert(indexed_at(4, 37)) by {
        assert(POLISH_SYMBOLS@[4] == ("nawias kwadratowy zamkniety", "]"));
        assert(polish_symbol_index()[37] == ("nawias kwadratowy zamkniety"@, "]"@));
        reveal_strlit("nawias kwadratowy zamkniety");
        reveal_strlit("]");
        assert(normalize("nawias kwadratowy zamkniety"@) =~= "nawias kwadratowy zamkniety"@);
    }
    assert(indexed_at(5, 32)) by {
        assert(POLISH_SYMBOLS@[5] == ("nawias klamrowy zamykający", "}"));
        assert(polish_symbol_index()[32] == ("nawias klamrowy zamykajacy"@, "}"@));
        reveal_strlit("nawias klamrowy zamykajacy");
        reveal_strlit("nawias klamrowy zamykający");
        reveal_strlit("}");
        assert(normalize("nawias klamrowy zamykający"@) =~= "nawias klamrowy zamykajacy"@);
    }
    assert(indexed_at(6, 31)) by {
        assert(POLISH_SYMBOLS@[6] == ("nawias klamrowy zamknięty", "}"));
        assert(polish_symbol_index()[31] == ("nawias klamrowy zamkniety"@, "}"@));
        reveal_strlit("nawias klamrowy zamkniety");
        reveal_strlit("nawias klamrowy zamknięty");
        reveal_strlit("}");
        assert(normalize("nawias klamrowy zamknięty"@) =~= "nawias klamrowy zamkniety"@);
    }
    assert(indexed_at(7, 34)) by {
        assert(POLISH_SYMBOLS@[7] == ("nawias kwadratowy otwarty", "["));
        assert(polish_symbol_index()[34] == ("nawias kwadratowy otwarty"@, "["@));
        reveal_strlit("nawias kwadratowy otwarty");
        reveal_strlit("[");
        assert(normalize("nawias kwadratowy otwarty"@) =~= "nawias kwadratowy otwarty"@);
    }
    assert(indexed_at(8, 31)) by {
        assert(POLISH_SYMBOLS@[8] == ("nawias klamrowy zamkniety", "}"));
        assert(polish_symbol_index()[31] == ("nawias klamrowy zamkniety"@, "}"@));
        reveal_strlit("nawias klamrowy zamkniety");
        reveal_strlit("}");
        assert(normalize("nawias klamrowy zamkniety"@) =~= "nawias klamrowy zamkniety"@);
    }
    assert(indexed_at(9, 36)) by {
        assert(POLISH_SYMBOLS@[9] == ("nawias kwadratowy prawy", "]"));
        assert(polish_symbol_index()[36] == ("nawias kwadratowy prawy"@, "]"@));
        reveal_strlit("nawias kwadratowy prawy");
        reveal_strlit("]");
        assert(normalize("nawias kwadratowy prawy"@) =~= "nawias kwadratowy prawy"@);
    }
    assert(indexed_at(10, 28)) by {
        assert(POLISH_SYMBOLS@[10] == ("nawias klamrowy otwarty", "{"));
        assert(polish_symbol_index()[28] == ("nawias klamrowy otwarty"@, "{"@));
        reveal_strlit("nawias klamrowy otwarty");
        reveal_strlit("{");
        assert(normalize("nawias klamrowy otwarty"@) =~= "nawias klamrowy otwarty"@);
    }
    assert(indexed_at(11, 33)) by {
        assert(POLISH_SYMBOLS@[11] == ("nawias kwadratowy lewy", "["));
        assert(polish_symbol_index()[33] == ("nawias kwadratowy lewy"@, "["@));
        reveal_strlit("nawias kwadratowy lewy");
        reveal_strlit("[");
        assert(normalize("nawias kwadratowy lewy"@) =~= "nawias kwadratowy lewy"@);
    }
    assert(indexed_at(12, 30)) by {
        assert(POLISH_SYMBOLS@[12] == ("nawias klamrowy prawy", "}"));
        assert(polish_symbol_index()[30] == ("nawias klamrowy prawy"@, "}"@));
        reveal_strlit("nawias klamrowy prawy");
        reveal_strlit("}");
        assert(normalize("nawias klamrowy prawy"@) =~= "nawias klamrowy prawy"@);
    }
    assert(indexed_at(13, 27)) by {
        assert(POLISH_SYMBOLS@[13] == ("nawias klamrowy lewy", "{"));
        assert(polish_symbol_index()[27] == ("nawias klamrowy lewy"@, "{"@));
        reveal_strlit("nawias klamrowy lewy");
        reveal_strlit("{");
        assert(normalize("nawias klamrowy lewy"@) =~= "nawias klamrowy lewy"@);
    }
    assert(indexed_at(14, 41)) by {
        assert(POLISH_SYMBOLS@[14] == ("nawias otwierający", "("));
        assert(polish_symbol_index()[41] == ("nawias otwierajacy"@, "("@));
        reveal_strlit("nawias otwierajacy");
        reveal_strlit("nawias otwierający");
        reveal_strlit("(");
        assert(normalize("nawias otwierający"@) =~= "nawias otwierajacy"@);
    }
    assert(indexed_at(15, 7)) by {
        assert(POLISH_SYMBOLS@[15] == ("cudzysłów otwarty", "\""));
        assert(polish_symbol_index()[7] == ("cudzyslow otwarty"@, "\""@));
        reveal_strlit("cudzyslow otwarty");
        reveal_strlit("cudzysłów otwarty");
        reveal_strlit("\"");
        assert(normalize("cudzysłów otwarty"@) =~= "cudzyslow otwarty"@);
    }
    assert(indexed_at(16, 44)) by {
        assert(POLISH_SYMBOLS@[16] == ("nawias zamykający", ")"));
        assert(polish_symbol_index()[44] == ("nawias zamykajacy"@, ")"@));
        reveal_strlit("nawias zamykajacy");
        reveal_strlit("nawias zamykający");
        reveal_strlit(")");
        assert(normalize("nawias zamykający"@) =~= "nawias zamykajacy"@);
    }
    assert(indexed_at(17, 43)) by {
        assert(POLISH_SYMBOLS@[17] == ("nawias zamknięty", ")"));
        assert(polish_symbol_index()[43] == ("nawias zamkniety"@, ")"@));
        reveal_strlit("nawias zamkniety");
        reveal_strlit("nawias zamknięty");
        reveal_strlit(")");
        assert(normalize("nawias zamknięty"@) =~= "nawias zamkniety"@);
    }
    assert(indexed_at(18, 58)) by {
        assert(POLISH_SYMBOLS@[18] == ("ukośnik odwrotny", "\\"));
        assert(polish_symbol_index()[58] == ("ukosnik odwrotny"@, "\\"@));
        reveal_strlit("ukosnik odwrotny");
        reveal_strlit("ukośnik odwrotny");
        reveal_strlit("\\");
        assert(normalize("ukośnik odwrotny"@) =~= "ukosnik odwrotny"@);
    }
    assert(indexed_at(19, 66)) by {
        assert(POLISH_SYMBOLS@[19] == ("znak mniejszości", "<"));
        assert(polish_symbol_index()[66] == ("znak mniejszosci"@, "<"@));
        reveal_strlit("znak mniejszosci");
        reveal_strlit("znak mniejszości");
        reveal_strlit("<");
        assert(normalize("znak mniejszości"@) =~= "znak mniejszosci"@);
    }
    assert(indexed_at(20, 69)) by {
        assert(POLISH_SYMBOLS@[20] == ("znak większości", ">"));
        assert(polish_symbol_index()[69] == ("znak wiekszosci"@, ">"@));
        reveal_strlit("znak wiekszosci");
        reveal_strlit("znak większości");
        reveal_strlit(">");
        assert(normalize("znak większości"@) =~= "znak wiekszosci"@);
    }
    assert(indexed_at(21, 43)) by {
        assert(POLISH_SYMBOLS@[21] == ("nawias zamkniety", ")"));
        assert(polish_symbol_index()[43] == ("nawias zamkniety"@, ")"@));
        reveal_strlit("nawias zamkniety");
        reveal_strlit(")");
        assert(normalize("nawias zamkniety"@) =~= "nawias zamkniety"@);
    }
    assert(indexed_at(22, 58)) by {
        assert(POLISH_SYMBOLS@[22] == ("ukosnik odwrotny", "\\"));
        assert(polish_symbol_index()[58] == ("ukosnik odwrotny"@, "\\"@));
        reveal_strlit("ukosnik odwrotny");
        reveal_strlit("\\");
        assert(normalize("ukosnik odwrotny"@) =~= "ukosnik odwrotny"@);
    }
    assert(indexed_at(23, 66)) by {
        assert(POLISH_SYMBOLS@[23] == ("znak mniejszosci", "<"));
        assert(polish_symbol_index()[66] == ("znak mniejszosci"@, "<"@));
        reveal_strlit("znak mniejszosci");
        reveal_strlit("<");
        assert(normalize("znak mniejszosci"@) =~= "znak mniejszosci"@);
    }
    assert(indexed_at(24, 20)) by {
        assert(POLISH_SYMBOLS@[24] == ("kropka na końcu", "."));
        assert(polish_symbol_index()[20] == ("kropka na koncu"@, "."@));
        reveal_strlit("kropka na koncu");
        reveal_strlit("kropka na końcu");
        reveal_strlit(".");
        assert(normalize("kropka na końcu"@) =~= "kropka na koncu"@);
    }
    assert(indexed_at(25, 69)) by {
        assert(POLISH_SYMBOLS@[25] == ("znak wiekszosci", ">"));
        assert(polish_symbol_index()[69] == ("znak wiekszosci"@, ">"@));
        reveal_strlit("znak wiekszosci");
        reveal_strlit(">");
        assert(normalize("znak wiekszosci"@) =~= "znak wiekszosci"@);
    }
    assert(indexed_at(26, 40)) by {
        assert(POLISH_SYMBOLS@[26] == ("nawias otwarty", "("));
        assert(polish_symbol_index()[40] == ("nawias otwarty"@, "("@));
        reveal_strlit("nawias otwarty");
        reveal_strlit("(");
        assert(normalize("nawias otwarty"@) =~= "nawias otwarty"@);
    }
    assert(indexed_at(27, 45)) by {
        assert(POLISH_SYMBOLS@[27] == ("pionowa kreska", "|"));
        assert(polish_symbol_index()[45] == ("pionowa kreska"@, "|"@));
        reveal_strlit("pionowa kreska");
        reveal_strlit("|");
        assert(normalize("pionowa kreska"@) =~= "pionowa kreska"@);
    }
    assert(indexed_at(28, 18)) by {
        assert(POLISH_SYMBOLS@[28] == ("kreska pionowa", "|"));
        assert(polish_symbol_index()[18] == ("kreska pionowa"@, "|"@));
        reveal_strlit("kreska pionowa");
        reveal_strlit("|");
        assert(normalize("kreska pionowa"@) =~= "kreska pionowa"@);
    }
    assert(indexed_at(29, 70)) by {
        assert(POLISH_SYMBOLS@[29] == ("znak zapytania", "?"));
        assert(polish_symbol_index()[70] == ("znak zapytania"@, "?"@));
        reveal_strlit("znak zapytania");
        reveal_strlit("?");
        assert(normalize("znak zapytania"@) =~= "znak zapytania"@);
    }
    assert(indexed_at(30, 68)) by {
        assert(POLISH_SYMBOLS@[30] == ("znak procenta", "%"));
        assert(polish_symbol_index()[68] == ("znak procenta"@, "%"@));
        reveal_strlit("znak procenta");
        reveal_strlit("%");
        assert(normalize("znak procenta"@) =~= "znak procenta"@);
    }
    assert(indexed_at(31, 9)) by {
        assert(POLISH_SYMBOLS@[31] == ("daszek szybki", "^"));
        assert(polish_symbol_index()[9] == ("daszek szybki"@, "^"@));
        reveal_strlit("daszek szybki");
        reveal_strlit("^");
        assert(normalize("daszek szybki"@) =~= "daszek szybki"@);
    }
    assert(indexed_at(32, 48)) by {
        assert(POLISH_SYMBOLS@[32] == ("podkreślenie", "_"));
        assert(polish_symbol_index()[48] == ("podkreslenie"@, "_"@));
        reveal_strlit("podkreslenie");
        reveal_strlit("podkreślenie");
        reveal_strlit("_");
        assert(normalize("podkreślenie"@) =~= "podkreslenie"@);
    }
    assert(indexed_at(33, 25)) by {
        assert(POLISH_SYMBOLS@[33] == ("mniejsze niż", "<"));
        assert(polish_symbol_index()[25] == ("mniejsze niz"@, "<"@));
        reveal_strlit("mniejsze niz");
        reveal_strlit("mniejsze niż");
        reveal_strlit("<");
        assert(normalize("mniejsze niż"@) =~= "mniejsze niz"@);
    }
    assert(indexed_at(34, 61)) by {
        assert(POLISH_SYMBOLS@[34] == ("większe niż", ">"));
        assert(polish_symbol_index()[61] == ("wieksze niz"@, ">"@));
        reveal_strlit("wieksze niz");
        reveal_strlit("większe niż");
        reveal_strlit(">");
        assert(normalize("większe niż"@) =~= "wieksze niz"@);
    }
    assert(indexed_at(35, 42)) by {
        assert(POLISH_SYMBOLS@[35] == ("nawias prawy", ")"));
        assert(polish_symbol_index()[42] == ("nawias prawy"@, ")"@));
        reveal_strlit("nawias prawy");
        reveal_strlit(")");
        assert(normalize("nawias prawy"@) =~= "nawias prawy"@);
    }
    assert(indexed_at(36, 48)) by {
        assert(POLISH_SYMBOLS@[36] == ("podkreslenie", "_"));
        assert(polish_symbol_index()[48] == ("podkreslenie"@, "_"@));
        reveal_strlit("podkreslenie");
        reveal_strlit("_");
        assert(normalize("podkreslenie"@) =~= "podkreslenie"@);
    }
    assert(indexed_at(37, 25)) by {
        assert(POLISH_SYMBOLS@[37] == ("mniejsze niz", "<"));
        assert(polish_symbol_index()[25] == ("mniejsze niz"@, "<"@));
        reveal_strlit("mniejsze niz");
        reveal_strlit("<");
        assert(normalize("mniejsze niz"@) =~= "mniejsze niz"@);
    }
    assert(indexed_at(38, 65)) by {
        assert(POLISH_SYMBOLS@[38] == ("znak małpy", "@"));
        assert(polish_symbol_index()[65] == ("znak malpy"@, "@"@));
        reveal_strlit("znak malpy");
        reveal_strlit("znak małpy");
        reveal_strlit("@");
        assert(normalize("znak małpy"@) =~= "znak malpy"@);
    }
    assert(indexed_at(39, 64)) by {
        assert(POLISH_SYMBOLS@[39] == ("znak dolara", "$"));
        assert(polish_symbol_index()[64] == ("znak dolara"@, "$"@));
        reveal_strlit("znak dolara");
        reveal_strlit("$");
        assert(normalize("znak dolara"@) =~= "znak dolara"@);
    }
    assert(indexed_at(40, 39)) by {
        assert(POLISH_SYMBOLS@[40] == ("nawias lewy", "("));
        assert(polish_symbol_index()[39] == ("nawias lewy"@, "("@));
        reveal_strlit("nawias lewy");
        reveal_strlit("(");
        assert(normalize("nawias lewy"@) =~= "nawias lewy"@);
    }
    assert(indexed_at(41, 53)) by {
        assert(POLISH_SYMBOLS@[41] == ("równa się", "="));
        assert(polish_symbol_index()[53] == ("rowna sie"@, "="@));
        reveal_strlit("rowna sie");
        reveal_strlit("równa się");
        reveal_strlit("=");
        assert(normalize("równa się"@) =~= "rowna sie"@);
    }
    assert(indexed_at(42, 6)) by {
        assert(POLISH_SYMBOLS@[42] == ("cudzysłów", "\""));
        assert(polish_symbol_index()[6] == ("cudzyslow"@, "\""@));
        reveal_strlit("cudzyslow");
        reveal_strlit("cudzysłów");
        reveal_strlit("\"");
        assert(normalize("cudzysłów"@) =~= "cudzyslow"@);
    }
    assert(indexed_at(43, 61)) by {
        assert(POLISH_SYMBOLS@[43] == ("wieksze niz", ">"));
        assert(polish_symbol_index()[61] == ("wieksze niz"@, ">"@));
        reveal_strlit("wieksze niz");
        reveal_strlit(">");
        assert(normalize("wieksze niz"@) =~= "wieksze niz"@);
    }
    assert(indexed_at(44, 63)) by {
        assert(POLISH_SYMBOLS@[44] == ("wykrzyknik", "!"));
        assert(polish_symbol_index()[63] == ("wykrzyknik"@, "!"@));
        reveal_strlit("wykrzyknik");
        reveal_strlit("!");
        assert(normalize("wykrzyknik"@) =~= "wykrzyknik"@);
    }
    assert(indexed_at(45, 71)) by {
        assert(POLISH_SYMBOLS@[45] == ("zykadełko", "^"));
        assert(polish_symbol_index()[71] == ("zykadelko"@, "^"@));
        reveal_strlit("zykadelko");
        reveal_strlit("zykadełko");
        reveal_strlit("^");
        assert(normalize("zykadełko"@) =~= "zykadelko"@);
    }
    assert(indexed_at(46, 59)) by {
        assert(POLISH_SYMBOLS@[46] == ("underscore", "_"));
        assert(polish_symbol_index()[59] == ("underscore"@, "_"@));
        reveal_strlit("underscore");
        reveal_strlit("_");
        assert(normalize("underscore"@) =~= "underscore"@);
    }
    assert(indexed_at(47, 71)) by {
        assert(POLISH_SYMBOLS@[47] == ("zykadelko", "^"));
        assert(polish_symbol_index()[71] == ("zykadelko"@, "^"@));
        reveal_strlit("zykadelko");
        reveal_strlit("^");
        assert(normalize("zykadelko"@) =~= "zykadelko"@);
    }
    assert(indexed_at(48, 0)) by {
        assert(POLISH_SYMBOLS@[48] == ("ampersand", "&"));
        assert(polish_symbol_index()[0] == ("ampersand"@, "&"@));
        reveal_strlit("ampersand");
        reveal_strlit("&");
        assert(normalize("ampersand"@) =~= "ampersand"@);
    }
    assert(indexed_at(49, 53)) by {
        assert(POLISH_SYMBOLS@[49] == ("rowna sie", "="));
        assert(polish_symbol_index()[53] == ("rowna sie"@, "="@));
        reveal_strlit("rowna sie");
        reveal_strlit("=");
        assert(normalize("rowna sie"@) =~= "rowna sie"@);
    }
    assert(indexed_at(50, 67)) by {
        assert(POLISH_SYMBOLS@[50] == ("znak plus", "+"));
        assert(polish_symbol_index()[67] == ("znak plus"@, "+"@));
        reveal_strlit("znak plus");
        reveal_strlit("+");
        assert(normalize("znak plus"@) =~= "znak plus"@);
    }
    assert(indexed_at(51, 4)) by {
        assert(POLISH_SYMBOLS@[51] == ("backslash", "\\"));
        assert(polish_symbol_index()[4] == ("backslash"@, "\\"@));
        reveal_strlit("backslash");
        reveal_strlit("\\");
        assert(normalize("backslash"@) =~= "backslash"@);
    }
    assert(indexed_at(52, 11)) by {
        assert(POLISH_SYMBOLS@[52] == ("dwukropek", ":"));
        assert(polish_symbol_index()[11] == ("dwukropek"@, ":"@));
        reveal_strlit("dwukropek");
        reveal_strlit(":");
        assert(normalize("dwukropek"@) =~= "dwukropek"@);
    }
    assert(indexed_at(53, 6)) by {
        assert(POLISH_SYMBOLS@[53] == ("cudzyslow", "\""));
        assert(polish_symbol_index()[6] == ("cudzyslow"@, "\""@));
        reveal_strlit("cudzyslow");
        reveal_strlit("\"");
        assert(normalize("cudzyslow"@) =~= "cudzyslow"@);
    }
    assert(indexed_at(54, 50)) by {
        assert(POLISH_SYMBOLS@[54] == ("przecinek", ","));
        assert(polish_symbol_index()[50] == ("przecinek"@, ","@));
        reveal_strlit("przecinek");
        reveal_strlit(",");
        assert(normalize("przecinek"@) =~= "przecinek"@);
    }
    assert(indexed_at(55, 21)) by {
        assert(POLISH_SYMBOLS@[55] == ("krzyżyk", "#"));
        assert(polish_symbol_index()[21] == ("krzyzyk"@, "#"@));
        reveal_strlit("krzyzyk");
        reveal_strlit("krzyżyk");
        reveal_strlit("#");
        assert(normalize("krzyżyk"@) =~= "krzyzyk"@);
    }
    assert(indexed_at(56, 14)) by {
        assert(POLISH_SYMBOLS@[56] == ("gwiazdka", "*"));
        assert(polish_symbol_index()[14] == ("gwiazdka"@, "*"@));
        reveal_strlit("gwiazdka");
        reveal_strlit("*");
        assert(normalize("gwiazdka"@) =~= "gwiazdka"@);
    }
    assert(indexed_at(57, 2)) by {
        assert(POLISH_SYMBOLS@[57] == ("asterisk", "*"));
        assert(polish_symbol_index()[2] == ("asterisk"@, "*"@));
        reveal_strlit("asterisk");
        reveal_strlit("*");
        assert(normalize("asterisk"@) =~= "asterisk"@);
    }
    assert(indexed_at(58, 26)) by {
        assert(POLISH_SYMBOLS@[58] == ("myślnik", "-"));
        assert(polish_symbol_index()[26] == ("myslnik"@, "-"@));
        reveal_strlit("myslnik");
        reveal_strlit("myślnik");
        reveal_strlit("-");
        assert(normalize("myślnik"@) =~= "myslnik"@);
    }
    assert(indexed_at(59, 55)) by {
        assert(POLISH_SYMBOLS@[59] == ("średnik", ";"));
        assert(polish_symbol_index()[55] == ("srednik"@, ";"@));
        reveal_strlit("srednik");
        reveal_strlit("średnik");
        reveal_strlit(";");
        assert(normalize("średnik"@) =~= "srednik"@);
    }
    assert(indexed_at(60, 1)) by {
        assert(POLISH_SYMBOLS@[60] == ("apostrof", "'"));
        assert(polish_symbol_index()[1] == ("apostrof"@, "'"@));
        reveal_strlit("apostrof");
        reveal_strlit("'");
        assert(normalize("apostrof"@) =~= "apostrof"@);
    }
    assert(indexed_at(61, 24)) by {
        assert(POLISH_SYMBOLS@[61] == ("mniejsze", "<"));
        assert(polish_symbol_index()[24] == ("mniejsze"@, "<"@));
        reveal_strlit("mniejsze");
        reveal_strlit("<");
        assert(normalize("mniejsze"@) =~= "mniejsze"@);
    }
    assert(indexed_at(62, 60)) by {
        assert(POLISH_SYMBOLS@[62] == ("większe", ">"));
        assert(polish_symbol_index()[60] == ("wieksze"@, ">"@));
        reveal_strlit("wieksze");
        reveal_strlit("większe");
        reveal_strlit(">");
        assert(normalize("większe"@) =~= "wieksze"@);
    }
    assert(indexed_at(63, 51)) by {
        assert(POLISH_SYMBOLS@[63] == ("pytajnik", "?"));
        assert(polish_symbol_index()[51] == ("pytajnik"@, "?"@));
        reveal_strlit("pytajnik");
        reveal_strlit("?");
        assert(normalize("pytajnik"@) =~= "pytajnik"@);
    }
    assert(indexed_at(64, 57)) by {
        assert(POLISH_SYMBOLS@[64] == ("ukośnik", "/"));
        assert(polish_symbol_index()[57] == ("ukosnik"@, "/"@));
        reveal_strlit("ukosnik");
        reveal_strlit("ukośnik");
        reveal_strlit("/");
        assert(normalize("ukośnik"@) =~= "ukosnik"@);
    }
    assert(indexed_at(65, 5)) by {
        assert(POLISH_SYMBOLS@[65] == ("backtick", "`"));
        assert(polish_symbol_index()[5] == ("backtick"@, "`"@));
        reveal_strlit("backtick");
        reveal_strlit("`");
        assert(normalize("backtick"@) =~= "backtick"@);
    }
    assert(indexed_at(66, 62)) by {
        assert(POLISH_SYMBOLS@[66] == ("wykrzyk", "!"));
        assert(polish_symbol_index()[62] == ("wykrzyk"@, "!"@));
        reveal_strlit("wykrzyk");
        reveal_strlit("!");
        assert(normalize("wykrzyk"@) =~= "wykrzyk"@);
    }
    assert(indexed_at(67, 21)) by {
        assert(POLISH_SYMBOLS@[67] == ("krzyzyk", "#"));
        assert(polish_symbol_index()[21] == ("krzyzyk"@, "#"@));
        reveal_strlit("krzyzyk");
        reveal_strlit("#");
        assert(normalize("krzyzyk"@) =~= "krzyzyk"@);
    }
    assert(indexed_at(68, 16)) by {
        assert(POLISH_SYMBOLS@[68] == ("hasztag", "#"));
        assert(polish_symbol_index()[16] == ("hasztag"@, "#"@));
        reveal_strlit("hasztag");
        reveal_strlit("#");
        assert(normalize("hasztag"@) =~= "hasztag"@);
    }
    assert(indexed_at(69, 49)) by {
        assert(POLISH_SYMBOLS@[69] == ("procent", "%"));
        assert(polish_symbol_index()[49] == ("procent"@, "%"@));
        reveal_strlit("procent");
        reveal_strlit("%");
        assert(normalize("procent"@) =~= "procent"@);
    }
    assert(indexed_at(70, 13)) by {
        assert(POLISH_SYMBOLS@[70] == ("gwiazda", "*"));
        assert(polish_symbol_index()[13] == ("gwiazda"@, "*"@));
        reveal_strlit("gwiazda");
        reveal_strlit("*");
        assert(normalize("gwiazda"@) =~= "gwiazda"@);
    }
    assert(indexed_at(71, 26)) by {
        assert(POLISH_SYMBOLS@[71] == ("myslnik", "-"));
        assert(polish_symbol_index()[26] == ("myslnik"@, "-"@));
        reveal_strlit("myslnik");
        reveal_strlit("-");
        assert(normalize("myslnik"@) =~= "myslnik"@);
    }
    assert(indexed_at(72, 55)) by {
        assert(POLISH_SYMBOLS@[72] == ("srednik", ";"));
        assert(polish_symbol_index()[55] == ("srednik"@, ";"@));
        reveal_strlit("srednik");
        reveal_strlit(";");
        assert(normalize("srednik"@) =~= "srednik"@);
    }
    assert(indexed_at(73, 60)) by {
        assert(POLISH_SYMBOLS@[73] == ("wieksze", ">"));
        assert(polish_symbol_index()[60] == ("wieksze"@, ">"@));
        reveal_strlit("wieksze");
        reveal_strlit(">");
        assert(normalize("wieksze"@) =~= "wieksze"@);
    }
    assert(indexed_at(74, 57)) by {
        assert(POLISH_SYMBOLS@[74] == ("ukosnik", "/"));
        assert(polish_symbol_index()[57] == ("ukosnik"@, "/"@));
        reveal_strlit("ukosnik");
        reveal_strlit("/");
        assert(normalize("ukosnik"@) =~= "ukosnik"@);
    }
    assert(indexed_at(75, 22)) by {
        assert(POLISH_SYMBOLS@[75] == ("małpa", "@"));
        assert(polish_symbol_index()[22] == ("malpa"@, "@"@));
        reveal_strlit("malpa");
        reveal_strlit("małpa");
        reveal_strlit("@");
        assert(normalize("małpa"@) =~= "malpa"@);
    }
    assert(indexed_at(76, 8)) by {
        assert(POLISH_SYMBOLS@[76] == ("daszek", "^"));
        assert(polish_symbol_index()[8] == ("daszek"@, "^"@));
        reveal_strlit("daszek");
        reveal_strlit("^");
        assert(normalize("daszek"@) =~= "daszek"@);
    }
    assert(indexed_at(77, 17)) by {
        assert(POLISH_SYMBOLS@[77] == ("kreska", "-"));
        assert(polish_symbol_index()[17] == ("kreska"@, "-"@));
        reveal_strlit("kreska");
        reveal_strlit("-");
        assert(normalize("kreska"@) =~= "kreska"@);
    }
    assert(indexed_at(78, 52)) by {
        assert(POLISH_SYMBOLS@[78] == ("równa", "="));
        assert(polish_symbol_index()[52] == ("rowna"@, "="@));
        reveal_strlit("rowna");
        reveal_strlit("równa");
        reveal_strlit("=");
        assert(normalize("równa"@) =~= "rowna"@);
    }
    assert(indexed_at(79, 19)) by {
        assert(POLISH_SYMBOLS@[79] == ("kropka", "."));
        assert(polish_symbol_index()[19] == ("kropka"@, "."@));
        reveal_strlit("kropka");
        reveal_strlit(".");
        assert(normalize("kropka"@) =~= "kropka"@);
    }
    assert(indexed_at(80, 12)) by {
        assert(POLISH_SYMBOLS@[80] == ("grawis", "`"));
        assert(polish_symbol_index()[12] == ("grawis"@, "`"@));
        reveal_strlit("grawis");
        reveal_strlit("`");
        assert(normalize("grawis"@) =~= "grawis"@);
    }
    assert(indexed_at(81, 22)) by {
        assert(POLISH_SYMBOLS@[81] == ("malpa", "@"));
        assert(polish_symbol_index()[22] == ("malpa"@, "@"@));
        reveal_strlit("malpa");
        reveal_strlit("@");
        assert(normalize("malpa"@) =~= "malpa"@);
    }
    assert(indexed_at(82, 10)) by {
        assert(POLISH_SYMBOLS@[82] == ("dolar", "$"));
        assert(polish_symbol_index()[10] == ("dolar"@, "$"@));
        reveal_strlit("dolar");
        reveal_strlit("$");
        assert(normalize("dolar"@) =~= "dolar"@);
    }
    assert(indexed_at(83, 23)) by {
        assert(POLISH_SYMBOLS@[83] == ("minus", "-"));
        assert(polish_symbol_index()[23] == ("minus"@, "-"@));
        reveal_strlit("minus");
        reveal_strlit("-");
        assert(normalize("minus"@) =~= "minus"@);
    }
    assert(indexed_at(84, 52)) by {
        assert(POLISH_SYMBOLS@[84] == ("rowna", "="));
        assert(polish_symbol_index()[52] == ("rowna"@, "="@));
        reveal_strlit("rowna");
        reveal_strlit("=");
        assert(normalize("rowna"@) =~= "rowna"@);
    }
    assert(indexed_at(85, 54)) by {
        assert(POLISH_SYMBOLS@[85] == ("slash", "/"));
        assert(polish_symbol_index()[54] == ("slash"@, "/"@));
        reveal_strlit("slash");
        reveal_strlit("/");
        assert(normalize("slash"@) =~= "slash"@);
    }
    assert(indexed_at(86, 56)) by {
        assert(POLISH_SYMBOLS@[86] == ("tylda", "~"));
        assert(polish_symbol_index()[56] == ("tylda"@, "~"@));
        reveal_strlit("tylda");
        reveal_strlit("~");
        assert(normalize("tylda"@) =~= "tylda"@);
    }
    assert(indexed_at(87, 15)) by {
        assert(POLISH_SYMBOLS@[87] == ("hash", "#"));
        assert(polish_symbol_index()[15] == ("hash"@, "#"@));
        reveal_strlit("hash");
        reveal_strlit("#");
        assert(normalize("hash"@) =~= "hash"@);
    }
    assert(indexed_at(88, 47)) by {
        assert(POLISH_SYMBOLS@[88] == ("plus", "+"));
        assert(polish_symbol_index()[47] == ("plus"@, "+"@));
        reveal_strlit("plus");
        reveal_strlit("+");
        assert(normalize("plus"@) =~= "plus"@);
    }
    assert(indexed_at(89, 46)) by {
        assert(POLISH_SYMBOLS@[89] == ("pipe", "|"));
        assert(polish_symbol_index()[46] == ("pipe"@, "|"@));
        reveal_strlit("pipe");
        reveal_strlit("|");
        assert(normalize("pipe"@) =~= "pipe"@);
    }
    assert(indexed_at(90, 3)) by {
        assert(POLISH_SYMBOLS@[90] == ("at", "@"));
        assert(polish_symbol_index()[3] == ("at"@, "@"@));
        reveal_strlit("at");
        reveal_strlit("@");
        assert(normalize("at"@) =~= "at"@);
    }
    assert forall|k: int| 0 <= k < POLISH_SYMBOLS@.len() implies #[trigger] indexed(k) by {
        if k == 0 {
            assert(indexed_at(0, 35));
        }
        if k == 1 {
            assert(indexed_at(1, 38));
        }
        if k == 2 {
            assert(indexed_at(2, 37));
        }
        if k == 3 {
            assert(indexed_at(3, 29));
        }
        if k == 4 {
            assert(indexed_at(4, 37));
        }
        if k == 5 {
            assert(indexed_at(5, 32));
        }
        if k == 6 {
            assert(indexed_at(6, 31));
        }
        if k == 7 {
            assert(indexed_at(7, 34));
        }
        if k == 8 {
            assert(indexed_at(8, 31));
        }
        if k == 9 {
            assert(indexed_at(9, 36));
        }
        if k == 10 {
            assert(indexed_at(10, 28));
        }
        if k == 11 {
            assert(indexed_at(11, 33));
        }
        if k == 12 {
            assert(indexed_at(12, 30));
        }
        if k == 13 {
            assert(indexed_at(13, 27));
        }
        if k == 14 {
            assert(indexed_at(14, 41));
        }
        if k == 15 {
            assert(indexed_at(15, 7));
        }
        if k == 16 {
            assert(indexed_at(16, 44));
        }
        if k == 17 {
            assert(indexed_at(17, 43));
        }
        if k == 18 {
            assert(indexed_at(18, 58));
        }
        if k == 19 {
            assert(indexed_at(19, 66));
        }
        if k == 20 {
            assert(indexed_at(20, 69));
        }
        if k == 21 {
            assert(indexed_at(21, 43));
        }
        if k == 22 {
            assert(indexed_at(22, 58));
        }
        if k == 23 {
            assert(indexed_at(23, 66));
        }
        if k == 24 {
            assert(indexed_at(24, 20));
        }
        if k == 25 {
            assert(indexed_at(25, 69));
        }
        if k == 26 {
            assert(indexed_at(26, 40));
        }
        if k == 27 {
            assert(indexed_at(27, 45));
        }
        if k == 28 {
            assert(indexed_at(28, 18));
        }
        if k == 29 {
            assert(indexed_at(29, 70));
        }
        if k == 30 {
            assert(indexed_at(30, 68));
        }
        if k == 31 {
            assert(indexed_at(31, 9));
        }
        if k == 32 {
            assert(indexed_at(32, 48));
        }
        if k == 33 {
            assert(indexed_at(33, 25));
        }
        if k == 34 {
            assert(indexed_at(34, 61));
        }
        if k == 35 {
            assert(indexed_at(35, 42));
        }
        if k == 36 {
            assert(indexed_at(36, 48));
        }
        if k == 37 {
            assert(indexed_at(37, 25));
        }
        if k == 38 {
            assert(indexed_at(38, 65));
        }
        if k == 39 {
            assert(indexed_at(39, 64));
        }
        if k == 40 {
            assert(indexed_at(40, 39));
        }
        if k == 41 {
            assert(indexed_at(41, 53));
        }
        if k == 42 {
            assert(indexed_at(42, 6));
        }
        if k == 43 {
            assert(indexed_at(43, 61));
        }
        if k == 44 {
            assert(indexed_at(44, 63));
        }
        if k == 45 {
            assert(indexed_at(45, 71));
        }
        if k == 46 {
            assert(indexed_at(46, 59));
        }
        if k == 47 {
            assert(indexed_at(47, 71));
        }
        if k == 48 {
            assert(indexed_at(48, 0));
        }
        if k == 49 {
            assert(indexed_at(49, 53));
        }
        if k == 50 {
            assert(indexed_at(50, 67));
        }
        if k == 51 {
            assert(indexed_at(51, 4));
        }
        if k == 52 {
            assert(indexed_at(52, 11));
        }
        if k == 53 {
            assert(indexed_at(53, 6));
        }
        if k == 54 {
            assert(indexed_at(54, 50));
        }
        if k == 55 {
            assert(indexed_at(55, 21));
        }
        if k == 56 {
            assert(indexed_at(56, 14));
        }
        if k == 57 {
            assert(indexed_at(57, 2));
        }
        if k == 58 {
            assert(indexed_at(58, 26));
        }
        if k == 59 {
            assert(indexed_at(59, 55));
        }
        if k == 60 {
            assert(indexed_at(60, 1));
        }
        if k == 61 {
            assert(indexed_at(61, 24));
        }
        if k == 62 {
            assert(indexed_at(62, 60));
        }
        if k == 63 {
            assert(indexed_at(63, 51));
        }
        if k == 64 {
            assert(indexed_at(64, 57));
        }
        if k == 65 {
            assert(indexed_at(65, 5));
        }
        if k == 66 {
            assert(indexed_at(66, 62));
        }
        if k == 67 {
            assert(indexed_at(67, 21));
        }
        if k == 68 {
            assert(indexed_at(68, 16));
        }
        if k == 69 {
            assert(indexed_at(69, 49));
        }
        if k == 70 {
            assert(indexed_at(70, 13));
        }
        if k == 71 {
            assert(indexed_at(71, 26));
        }
        if k == 72 {
            assert(indexed_at(72, 55));
        }
        if k == 73 {
            assert(indexed_at(73, 60));
        }
        if k == 74 {
            assert(indexed_at(74, 57));
        }
        if k == 75 {
            assert(indexed_at(75, 22));
        }
        if k == 76 {
            assert(indexed_at(76, 8));
        }
        if k == 77 {
            assert(indexed_at(77, 17));
        }
        if k == 78 {
            assert(indexed_at(78, 52));
        }
        if k == 79 {
            assert(indexed_at(79, 19));
        }
        if k == 80 {
            assert(indexed_at(80, 12));
        }
        if k == 81 {
            assert(indexed_at(81, 22));
        }
        if k == 82 {
            assert(indexed_at(82, 10));
        }
        if k == 83 {
            assert(indexed_at(83, 23));
        }
        if k == 84 {
            assert(indexed_at(84, 52));
        }
        if k == 85 {
            assert(indexed_at(85, 54));
        }
        if k == 86 {
            assert(indexed_at(86, 56));
        }
        if k == 87 {
            assert(indexed_at(87, 15));
        }
        if k == 88 {
            assert(indexed_at(88, 47));
        }
        if k == 89 {
            assert(indexed_at(89, 46));
        }
        if k == 90 {
            assert(indexed_at(90, 3));
        }
    }
}

#[verifier::rlimit(100)]
proof fn lemma_polish_symbol_index_steps()
    ensures
        forall|a: int|
            0 <= a < polish_symbol_index().len() - 1 ==> name_lt(
                #[trigger] polish_symbol_index()[a].0,
                polish_symbol_index()[a + 1].0,
            ),
{
    assert(name_lt(polish_symbol_index()[0].0, polish_symbol_index()[1].0)) by {
        assert(polish_symbol_index()[0].0 == "ampersand"@);
        assert(polish_symbol_index()[1].0 == "apostrof"@);
        reveal_strlit("ampersand");
        reveal_strlit("apostrof");
        reveal_with_fuel(name_lt, 3);
    }
    assert(name_lt(polish_symbol_index()[1].0, polish_symbol_index()[2].0)) by {
        assert(polish_symbol_index()[1].0 == "apostrof"@);
        assert(polish_symbol_index()[2].0 == "asterisk"@);
        reveal_strlit("apostrof");
        reveal_strlit("asterisk");
        reveal_with_fuel(name_lt, 3);
    }
    assert(name_lt(polish_symbol_index()[2].0, polish_symbol_index()[3].0)) by {
        assert(polish_symbol_index()[2].0 == "asterisk"@);
        assert(polish_symbol_index()[3].0 == "at"@);
        reveal_strlit("asterisk");
        reveal_strlit("at");
        reveal_with_fuel(name_lt, 3);
    }
    assert(name_lt(polish_symbol_index()[3].0, polish_symbol_index()[4].0)) by {
        assert(polish_symbol_index()[3].0 == "at"@);
        assert(polish_symbol_index()[4].0 == "backslash"@);
        reveal_strlit("at");
        reveal_strlit("backslash");
        reveal_with_fuel(name_lt, 2);
    }
    assert(name_lt(polish_symbol_index()[4].0, polish_symbol_index()[5].0)) by {
        assert(polish_symbol_index()[4].0 == "backslash"@);
        assert(polish_symbol_index()[5].0 == "backtick"@);
        reveal_strlit("backslash");
        reveal_strlit("backtick");
        reveal_with_fuel(name_lt, 6);
    }
    assert(name_lt(polish_symbol_index()[5].0, polish_symbol_index()[6].0)) by {
        assert(polish_symbol_index()[5].0 == "backtick"@);
        assert(polish_symbol_index()[6].0 == "cudzyslow"@);
        reveal_strlit("backtick");
        reveal_strlit("cudzyslow");
        reveal_with_fuel(name_lt, 2);
    }
    assert(name_lt(polish_symbol_index()[6].0, polish_symbol_index()[7].0)) by {
        assert(polish_symbol_index()[6].0 == "cudzyslow"@);
        assert(polish_symbol_index()[7].0 == "cudzyslow otwarty"@);
        reveal_strlit("cudzyslow");
        reveal_strlit("cudzyslow otwarty");
        reveal_with_fuel(name_lt, 11);
    }
    assert(name_lt(polish_symbol_index()[7].0, polish_symbol_index()[8].0)) by {
        assert(polish_symbol_index()[7].0 == "cudzyslow otwarty"@);
        assert(polish_symbol_index()[8].0 == "daszek"@);
        reveal_strlit("cudzyslow otwarty");
        reveal_strlit("daszek");
        reveal_with_fuel(name_lt, 2);
    }
    assert(name_lt(polish_symbol_index()[8].0, polish_symbol_index()[9].0)) by {
        assert(polish_symbol_index()[8].0 == "daszek"@);
        assert(polish_symbol_index()[9].0 == "daszek szybki"@);
        reveal_strlit("daszek");
        reveal_strlit("daszek szybki");
        reveal_with_fuel(name_lt, 8);
    }
    assert(name_lt(polish_symbol_index()[9].0, polish_symbol_index()[10].0)) by {
        assert(polish_symbol_index()[9].0 == "daszek szybki"@);
        assert(polish_symbol_index()[10].0 == "dolar"@);
        reveal_strlit("daszek szybki");
        reveal_strlit("dolar");
        reveal_with_fuel(name_lt, 3);
    }
    assert(name_lt(polish_symbol_index()[10].0, polish_symbol_index()[11].0)) by {
        assert(polish_symbol_index()[10].0 == "dolar"@);
        assert(polish_symbol_index()[11].0 == "dwukropek"@);
        reveal_strlit("dolar");
        reveal_strlit("dwukropek");
        reveal_with_fuel(name_lt, 3);
    }
    assert(name_lt(polish_symbol_index()[11].0, polish_symbol_index()[12].0)) by {
        assert(polish_symbol_index()[11].0 == "dwukropek"@);
        assert(polish_symbol_index()[12].0 == "grawis"@);
        reveal_strlit("dwukropek");
        reveal_strlit("grawis");
        reveal_with_fuel(name_lt, 2);
    }
    assert(name_lt(polish_symbol_index()[12].0, polish_symbol_index()[13].0)) by {
        assert(polish_symbol_index()[12].0 == "grawis"@);
        assert(polish_symbol_index()[13].0 == "gwiazda"@);
        reveal_strlit("grawis");
        reveal_strlit("gwiazda");
        reveal_with_fuel(name_lt, 3);
    }
    assert(name_lt(polish_symbol_index()[13].0, polish_symbol_index()[14].0)) by {
        assert(polish_symbol_index()[13].0 == "gwiazda"@);
        assert(polish_symbol_index()[14].0 == "gwiazdka"@);
        reveal_strlit("gwiazda");
        reveal_strlit("gwiazdka");
        reveal_with_fuel(name_lt, 8);
    }
    assert(name_lt(polish_symbol_index()[14].0, polish_symbol_index()[15].0)) by {
        assert(polish_symbol_index()[14].0 == "gwiazdka"@);
        assert(polish_symbol_index()[15].0 == "hash"@);
        reveal_strlit("gwiazdka");
        reveal_strlit("hash");
        reveal_with_fuel(name_lt, 2);
    }
    assert(name_lt(polish_symbol_index()[15].0, polish_symbol_index()[16].0)) by {
        assert(polish_symbol_index()[15].0 == "hash"@);
        assert(polish_symbol_index()[16].0 == "hasztag"@);
        reveal_strlit("hash");
        reveal_strlit("hasztag");
        reveal_with_fuel(name_lt, 5);
    }
    assert(name_lt(polish_symbol_index()[16].0, polish_symbol_index()[17].0)) by {
        assert(polish_symbol_index()[16].0 == "hasztag"@);
        assert(polish_symbol_index()[17].0 == "kreska"@);
        reveal_strlit("hasztag");
        reveal_strlit("kreska");
        reveal_with_fuel(name_lt, 2);
    }
    assert(name_lt(polish_symbol_index()[17].0, polish_symbol_index()[18].0)) by {
        assert(polish_symbol_index()[17].0 == "kreska"@);
        assert(polish_symbol_index()[18].0 == "kreska pionowa"@);
        reveal_strlit("kreska");
        reveal_strlit("kreska pionowa");
        reveal_with_fuel(name_lt, 8);
    }
    assert(name_lt(polish_symbol_index()[18].0, polish_symbol_index()[19].0)) by {
        assert(polish_symbol_index()[18].0 == "kreska pionowa"@);
        assert(polish_symbol_index()[19].0 == "kropka"@);
        reveal_strlit("kreska pionowa");
        reveal_strlit("kropka");
        reveal_with_fuel(name_lt, 4);
    }
    assert(name_lt(polish_symbol_index()[19].0, polish_symbol_index()[20].0)) by {
        assert(polish_symbol_index()[19].0 == "kropka"@);
        assert(polish_symbol_index()[20].0 == "kropka na koncu"@);
        reveal_strlit("kropka");
        reveal_strlit("kropka na koncu");
        reveal_with_fuel(name_lt, 8);
    }
    assert(name_lt(polish_symbol_index()[20].0, polish_symbol_index()[21].0)) by {
        assert(polish_symbol_index()[20].0 == "kropka na koncu"@);
        assert(polish_symbol_index()[21].0 == "krzyzyk"@);
        reveal_strlit("kropka na koncu");
        reveal_strlit("krzyzyk");
        reveal_with_fuel(name_lt, 4);
    }
    assert(name_lt(polish_symbol_index()[21].0, polish_symbol_index()[22].0)) by {
        assert(polish_symbol_index()[21].0 == "krzyzyk"@);
        assert(polish_symbol_index()[22].0 == "malpa"@);
        reveal_strlit("krzyzyk");
        reveal_strlit("malpa");
        reveal_with_fuel(name_lt, 2);
    }
    assert(name_lt(polish_symbol_index()[22].0, polish_symbol_index()[23].0)) by {
        assert(polish_symbol_index()[22].0 == "malpa"@);
        assert(polish_symbol_index()[23].0 == "minus"@);
        reveal_strlit("malpa");
        reveal_strlit("minus");
        reveal_with_fuel(name_lt, 3);
    }
    assert(name_lt(polish_symbol_index()[23].0, polish_symbol_index()[24].0)) by {
        assert(polish_symbol_index()[23].0 == "minus"@);
        assert(polish_symbol_index()[24].0 == "mniejsze"@);
        reveal_strlit("minus");
        reveal_strlit("mniejsze");
        reveal_with_fuel(name_lt, 3);
    }
    assert(name_lt(polish_symbol_index()[24].0, polish_symbol_index()[25].0)) by {
        assert(polish_symbol_index()[24].0 == "mniejsze"@);
        assert(polish_symbol_index()[25].0 == "mniejsze niz"@);
        reveal_strlit("mniejsze");
        reveal_strlit("mniejsze niz");
        reveal_with_fuel(name_lt, 10);
    }
    assert(name_lt(polish_symbol_index()[25].0, polish_symbol_index()[26].0)) by {
        assert(polish_symbol_index()[25].0 == "mniejsze niz"@);
        assert(polish_symbol_index()[26].0 == "myslnik"@);
        reveal_strlit("mniejsze niz");
        reveal_strlit("myslnik");
        reveal_with_fuel(name_lt, 3);
    }
    assert(name_lt(polish_symbol_index()[26].0, polish_symbol_index()[27].0)) by {
        assert(polish_symbol_index()[26].0 == "myslnik"@);
        assert(polish_symbol_index()[27].0 == "nawias klamrowy lewy"@);
        reveal_strlit("myslnik");
        reveal_strlit("nawias klamrowy lewy");
        reveal_with_fuel(name_lt, 2);
    }
    assert(name_lt(polish_symbol_index()[27].0, polish_symbol_index()[28].0)) by {
        assert(polish_symbol_index()[27].0 == "nawias klamrowy lewy"@);
        assert(polish_symbol_index()[28].0 == "nawias klamrowy otwarty"@);
        reveal_strlit("nawias klamrowy lewy");
        reveal_strlit("nawias klamrowy otwarty");
        reveal_with_fuel(name_lt, 18);
    }
    assert(name_lt(polish_symbol_index()[28].0, polish_symbol_index()[29].0)) by {
        assert(polish_symbol_index()[28].0 == "nawias klamrowy otwarty"@);
        assert(polish_symbol_index()[29].0 == "nawias klamrowy otwierajacy"@);
        reveal_strlit("nawias klamrowy otwarty");
        reveal_strlit("nawias klamrowy otwierajacy");
        reveal_with_fuel(name_lt, 21);
    }
    assert(name_lt(polish_symbol_index()[29].0, polish_symbol_index()[30].0)) by {
        assert(polish_symbol_index()[29].0 == "nawias klamrowy otwierajacy"@);
        assert(polish_symbol_index()[30].0 == "nawias klamrowy prawy"@);
        reveal_strlit("nawias klamrowy otwierajacy");
        reveal_strlit("nawias klamrowy prawy");
        reveal_with_fuel(name_lt, 18);
    }
    assert(name_lt(polish_symbol_index()[30].0, polish_symbol_index()[31].0)) by {
        assert(polish_symbol_index()[30].0 == "nawias klamrowy prawy"@);
        assert(polish_symbol_index()[31].0 == "nawias klamrowy zamkniety"@);
        reveal_strlit("nawias klamrowy prawy");
        reveal_strlit("nawias klamrowy zamkniety");
        reveal_with_fuel(name_lt, 18);
    }
    assert(name_lt(polish_symbol_index()[31].0, polish_symbol_index()[32].0)) by {
        assert(polish_symbol_index()[31].0 == "nawias klamrowy zamkniety"@);
        assert(polish_symbol_index()[32].0 == "nawias klamrowy zamykajacy"@);
        reveal_strlit("nawias klamrowy zamkniety");
        reveal_strlit("nawias klamrowy zamykajacy");
        reveal_with_fuel(name_lt, 21);
    }
    assert(name_lt(polish_symbol_index()[32].0, polish_symbol_index()[33].0)) by {
        assert(polish_symbol_index()[32].0 == "nawias klamrowy zamykajacy"@);
        assert(polish_symbol_index()[33].0 == "nawias kwadratowy lewy"@);
        reveal_strlit("nawias klamrowy zamykajacy");
        reveal_strlit("nawias kwadratowy lewy");
        reveal_with_fuel(name_lt, 10);
    }
    assert(name_lt(polish_symbol_index()[33].0, polish_symbol_index()[34].0)) by {
        assert(polish_symbol_index()[33].0 == "nawias kwadratowy lewy"@);
        assert(polish_symbol_index()[34].0 == "nawias kwadratowy otwarty"@);
        reveal_strlit("nawias kwadratowy lewy");
        reveal_strlit("nawias kwadratowy otwarty");
        reveal_with_fuel(name_lt, 20);
    }
    assert(name_lt(polish_symbol_index()[34].0, polish_symbol_index()[35].0)) by {
        assert(polish_symbol_index()[34].0 == "nawias kwadratowy otwarty"@);
        assert(polish_symbol_index()[35].0 == "nawias kwadratowy otwierajacy"@);
        reveal_strlit("nawias kwadratowy otwarty");
        reveal_strlit("nawias kwadratowy otwierajacy");
        reveal_with_fuel(name_lt, 23);
    }
    assert(name_lt(polish_symbol_index()[35].0, polish_symbol_index()[36].0)) by {
        assert(polish_symbol_index()[35].0 == "nawias kwadratowy otwierajacy"@);
        assert(polish_symbol_index()[36].0 == "nawias kwadratowy prawy"@);
        reveal_strlit("nawias kwadratowy otwierajacy");
        reveal_strlit("nawias kwadratowy prawy");
        reveal_with_fuel(name_lt, 20);
    }
    assert(name_lt(polish_symbol_index()[36].0, polish_symbol_index()[37].0)) by {
        assert(polish_symbol_index()[36].0 == "nawias kwadratowy prawy"@);
        assert(polish_symbol_index()[37].0 == "nawias kwadratowy zamkniety"@);
        reveal_strlit("nawias kwadratowy prawy");
        reveal_strlit("nawias kwadratowy zamkniety");
        reveal_with_fuel(name_lt, 20);
    }
    assert(name_lt(polish_symbol_index()[37].0, polish_symbol_index()[38].0)) by {
        assert(polish_symbol_index()[37].0 == "nawias kwadratowy zamkniety"@);
        assert(polish_symbol_index()[38].0 == "nawias kwadratowy zamykajacy"@);
        reveal_strlit("nawias kwadratowy zamkniety");
        reveal_strlit("nawias kwadratowy zamykajacy");
        reveal_with_fuel(name_lt, 23);
    }
    assert(name_lt(polish_symbol_index()[38].0, polish_symbol_index()[39].0)) by {
        assert(polish_symbol_index()[38].0 == "nawias kwadratowy zamykajacy"@);
        assert(polish_symbol_index()[39].0 == "nawias lewy"@);
        reveal_strlit("nawias kwadratowy zamykajacy");
        reveal_strlit("nawias lewy");
        reveal_with_fuel(name_lt, 9);
    }
    assert(name_lt(polish_symbol_index()[39].0, polish_symbol_index()[40].0)) by {
        assert(polish_symbol_index()[39].0 == "nawias lewy"@);
        assert(polish_symbol_index()[40].0 == "nawias otwarty"@);
        reveal_strlit("nawias lewy");
        reveal_strlit("nawias otwarty");
        reveal_with_fuel(name_lt, 9);
    }
    assert(name_lt(polish_symbol_index()[40].0, polish_symbol_index()[41].0)) by {
        assert(polish_symbol_index()[40].0 == "nawias otwarty"@);
        assert(polish_symbol_index()[41].0 == "nawias otwierajacy"@);
        reveal_strlit("nawias otwarty");
        reveal_strlit("nawias otwierajacy");
        reveal_with_fuel(name_lt, 12);
    }
    assert(name_lt(polish_symbol_index()[41].0, polish_symbol_index()[42].0)) by {
        assert(polish_symbol_index()[41].0 == "nawias otwierajacy"@);
        assert(polish_symbol_index()[42].0 == "nawias prawy"@);
        reveal_strlit("nawias otwierajacy");
        reveal_strlit("nawias prawy");
        reveal_with_fuel(name_lt, 9);
    }
    assert(name_lt(polish_symbol_index()[42].0, polish_symbol_index()[43].0)) by {
        assert(polish_symbol_index()[42].0 == "nawias prawy"@);
        assert(polish_symbol_index()[43].0 == "nawias zamkniety"@);
        reveal_strlit("nawias prawy");
        reveal_strlit("nawias zamkniety");
        reveal_with_fuel(name_lt, 9);
    }
    assert(name_lt(polish_symbol_index()[43].0, polish_symbol_index()[44].0)) by {
        assert(polish_symbol_index()[43].0 == "nawias zamkniety"@);
        assert(polish_symbol_index()[44].0 == "nawias zamykajacy"@);
        reveal_strlit("nawias zamkniety");
        reveal_strlit("nawias zamykajacy");
        reveal_with_fuel(name_lt, 12);
    }
    assert(name_lt(polish_symbol_index()[44].0, polish_symbol_index()[45].0)) by {
        assert(polish_symbol_index()[44].0 == "nawias zamykajacy"@);
        assert(polish_symbol_index()[45].0 == "pionowa kreska"@);
        reveal_strlit("nawias zamykajacy");
        reveal_strlit("pionowa kreska");
        reveal_with_fuel(name_lt, 2);
    }
    assert(name_lt(polish_symbol_index()[45].0, polish_symbol_index()[46].0)) by {
        assert(polish_symbol_index()[45].0 == "pionowa kreska"@);
        assert(polish_symbol_index()[46].0 == "pipe"@);
        reveal_strlit("pionowa kreska");
        reveal_strlit("pipe");
        reveal_with_fuel(name_lt, 4);
    }
    assert(name_lt(polish_symbol_index()[46].0, polish_symbol_index()[47].0)) by {
        assert(polish_symbol_index()[46].0 == "pipe"@);
        assert(polish_symbol_index()[47].0 == "plus"@);
        reveal_strlit("pipe");
        reveal_strlit("plus");
        reveal_with_fuel(name_lt, 3);
    }
    assert(name_lt(polish_symbol_index()[47].0, polish_symbol_index()[48].0)) by {
        assert(polish_symbol_index()[47].0 == "plus"@);
        assert(polish_symbol_index()[48].0 == "podkreslenie"@);
        reveal_strlit("plus");
        reveal_strlit("podkreslenie");
        reveal_with_fuel(name_lt, 3);
    }
    assert(name_lt(polish_symbol_index()[48].0, polish_symbol_index()[49].0)) by {
        assert(polish_symbol_index()[48].0 == "podkreslenie"@);
        assert(polish_symbol_index()[49].0 == "procent"@);
        reveal_strlit("podkreslenie");
        reveal_strlit("procent");
        reveal_with_fuel(name_lt, 3);
    }
    assert(name_lt(polish_symbol_index()[49].0, polish_symbol_index()[50].0)) by {
        assert(polish_symbol_index()[49].0 == "procent"@);
        assert(polish_symbol_index()[50].0 == "przecinek"@);
        reveal_strlit("procent");
        reveal_strlit("przecinek");
        reveal_with_fuel(name_lt, 4);
    }
    assert(name_lt(polish_symbol_index()[50].0, polish_symbol_index()[51].0)) by {
        assert(polish_symbol_index()[50].0 == "przecinek"@);
        assert(polish_symbol_index()[51].0 == "pytajnik"@);
        reveal_strlit("przecinek");
        reveal_strlit("pytajnik");
        reveal_with_fuel(name_lt, 3);
    }
    assert(name_lt(polish_symbol_index()[51].0, polish_symbol_index()[52].0)) by {
        assert(polish_symbol_index()[51].0 == "pytajnik"@);
        assert(polish_symbol_index()[52].0 == "rowna"@);
        reveal_strlit("pytajnik");
        reveal_strlit("rowna");
        reveal_with_fuel(name_lt, 2);
    }
    assert(name_lt(polish_symbol_index()[52].0, polish_symbol_index()[53].0)) by {
        assert(polish_symbol_index()[52].0 == "rowna"@);
        assert(polish_symbol_index()[53].0 == "rowna sie"@);
        reveal_strlit("rowna");
        reveal_strlit("rowna sie");
        reveal_with_fuel(name_lt, 7);
    }
    assert(name_lt(polish_symbol_index()[53].0, polish_symbol_index()[54].0)) by {
        assert(polish_symbol_index()[53].0 == "rowna sie"@);
        assert(polish_symbol_index()[54].0 == "slash"@);
        reveal_strlit("rowna sie");
        reveal_strlit("slash");
        reveal_with_fuel(name_lt, 2);
    }
    assert(name_lt(polish_symbol_index()[54].0, polish_symbol_index()[55].0)) by {
        assert(polish_symbol_index()[54].0 == "slash"@);
        assert(polish_symbol_index()[55].0 == "srednik"@);
        reveal_strlit("slash");
        reveal_strlit("srednik");
        reveal_with_fuel(name_lt, 3);
    }
    assert(name_lt(polish_symbol_index()[55].0, polish_symbol_index()[56].0)) by {
        assert(polish_symbol_index()[55].0 == "srednik"@);
        assert(polish_symbol_index()[56].0 == "tylda"@);
        reveal_strlit("srednik");
        reveal_strlit("tylda");
        reveal_with_fuel(name_lt, 2);
    }
    assert(name_lt(polish_symbol_index()[56].0, polish_symbol_index()[57].0)) by {
        assert(polish_symbol_index()[56].0 == "tylda"@);
        assert(polish_symbol_index()[57].0 == "ukosnik"@);
        reveal_strlit("tylda");
        reveal_strlit("ukosnik");
        reveal_with_fuel(name_lt, 2);
    }
    assert(name_lt(polish_symbol_index()[57].0, polish_symbol_index()[58].0)) by {
        assert(polish_symbol_index()[57].0 == "ukosnik"@);
        assert(polish_symbol_index()[58].0 == "ukosnik odwrotny"@);
        reveal_strlit("ukosnik");
        reveal_strlit("ukosnik odwrotny");
        reveal_with_fuel(name_lt, 9);
    }
    assert(name_lt(polish_symbol_index()[58].0, polish_symbol_index()[59].0)) by {
        assert(polish_symbol_index()[58].0 == "ukosnik odwrotny"@);
        assert(polish_symbol_index()[59].0 == "underscore"@);
        reveal_strlit("ukosnik odwrotny");
        reveal_strlit("underscore");
        reveal_with_fuel(name_lt, 3);
    }
    assert(name_lt(polish_symbol_index()[59].0, polish_symbol_index()[60].0)) by {
        assert(polish_symbol_index()[59].0 == "underscore"@);
        assert(polish_symbol_index()[60].0 == "wieksze"@);
        reveal_strlit("underscore");
        reveal_strlit("wieksze");
        reveal_with_fuel(name_lt, 2);
    }
    assert(name_lt(polish_symbol_index()[60].0, polish_symbol_index()[61].0)) by {
        assert(polish_symbol_index()[60].0 == "wieksze"@);
        assert(polish_symbol_index()[61].0 == "wieksze niz"@);
        reveal_strlit("wieksze");
        reveal_strlit("wieksze niz");
        reveal_with_fuel(name_lt, 9);
    }
    assert(name_lt(polish_symbol_index()[61].0, polish_symbol_index()[62].0)) by {
        assert(polish_symbol_index()[61].0 == "wieksze niz"@);
        assert(polish_symbol_index()[62].0 == "wykrzyk"@);
        reveal_strlit("wieksze niz");
        reveal_strlit("wykrzyk");
        reveal_with_fuel(name_lt, 3);
    }
    assert(name_lt(polish_symbol_index()[62].0, polish_symbol_index()[63].0)) by {
        assert(polish_symbol_index()[62].0 == "wykrzyk"@);
        assert(polish_symbol_index()[63].0 == "wykrzyknik"@);
        reveal_strlit("wykrzyk");
        reveal_strlit("wykrzyknik");
        reveal_with_fuel(name_lt, 9);
    }
    assert(name_lt(polish_symbol_index()[63].0, polish_symbol_index()[64].0)) by {
        assert(polish_symbol_index()[63].0 == "wykrzyknik"@);
        assert(polish_symbol_index()[64].0 == "znak dolara"@);
        reveal_strlit("wykrzyknik");
        reveal_strlit("znak dolara");
        reveal_with_fuel(name_lt, 2);
    }
    assert(name_lt(polish_symbol_index()[64].0, polish_symbol_index()[65].0)) by {
        assert(polish_symbol_index()[64].0 == "znak dolara"@);
        assert(polish_symbol_index()[65].0 == "znak malpy"@);
        reveal_strlit("znak dolara");
        reveal_strlit("znak malpy");
        reveal_with_fuel(name_lt, 7);
    }
    assert(name_lt(polish_symbol_index()[65].0, polish_symbol_index()[66].0)) by {
        assert(polish_symbol_index()[65].0 == "znak malpy"@);
        assert(polish_symbol_index()[66].0 == "znak mniejszosci"@);
        reveal_strlit("znak malpy");
        reveal_strlit("znak mniejszosci");
        reveal_with_fuel(name_lt, 8);
    }
    assert(name_lt(polish_symbol_index()[66].0, polish_symbol_index()[67].0)) by {
        assert(polish_symbol_index()[66].0 == "znak mniejszosci"@);
        assert(polish_symbol_index()[67].0 == "znak plus"@);
        reveal_strlit("znak mniejszosci");
        reveal_strlit("znak plus");
        reveal_with_fuel(name_lt, 7);
    }
    assert(name_lt(polish_symbol_index()[67].0, polish_symbol_index()[68].0)) by {
        assert(polish_symbol_index()[67].0 == "znak plus"@);
        assert(polish_symbol_index()[68].0 == "znak procenta"@);
        reveal_strlit("znak plus");
        reveal_strlit("znak procenta");
        reveal_with_fuel(name_lt, 8);
    }
    assert(name_lt(polish_symbol_index()[68].0, polish_symbol_index()[69].0)) by {
        assert(polish_symbol_index()[68].0 == "znak procenta"@);
        assert(polish_symbol_index()[69].0 == "znak wiekszosci"@);
        reveal_strlit("znak procenta");
        reveal_strlit("znak wiekszosci");
        reveal_with_fuel(name_lt, 7);
    }
    assert(name_lt(polish_symbol_index()[69].0, polish_symbol_index()[70].0)) by {
        assert(polish_symbol_index()[69].0 == "znak wiekszosci"@);
        assert(polish_symbol_index()[70].0 == "znak zapytania"@);
        reveal_strlit("znak wiekszosci");
        reveal_strlit("znak zapytania");
        reveal_with_fuel(name_lt, 7);
    }
    assert(name_lt(polish_symbol_index()[70].0, polish_symbol_index()[71].0)) by {
        assert(polish_symbol_index()[70].0 == "znak zapytania"@);
        assert(polish_symbol_index()[71].0 == "zykadelko"@);
        reveal_strlit("znak zapytania");
        reveal_strlit("zykadelko");
        reveal_with_fuel(name_lt, 3);
    }
    assert forall|a: int| 0 <= a < polish_symbol_index().len() - 1 implies name_lt(
        #[trigger] polish_symbol_index()[a].0,
        polish_symbol_index()[a + 1].0,
    ) by {
        if a == 0 {
            assert(name_lt(polish_symbol_index()[0].0, polish_symbol_index()[1].0));
        }
        if a == 1 {
            assert(name_lt(polish_symbol_index()[1].0, polish_symbol_index()[2].0));
        }
        if a == 2 {
            assert(name_lt(polish_symbol_index()[2].0, polish_symbol_index()[3].0));
        }
        if a == 3 {
            assert(name_lt(polish_symbol_index()[3].0, polish_symbol_index()[4].0));
        }
        if a == 4 {
            assert(name_lt(polish_symbol_index()[4].0, polish_symbol_index()[5].0));
        }
        if a == 5 {
            assert(name_lt(polish_symbol_index()[5].0, polish_symbol_index()[6].0));
        }
        if a == 6 {
            assert(name_lt(polish_symbol_index()[6].0, polish_symbol_index()[7].0));
        }
        if a == 7 {
            assert(name_lt(polish_symbol_index()[7].0, polish_symbol_index()[8].0));
        }
        if a == 8 {
            assert(name_lt(polish_symbol_index()[8].0, polish_symbol_index()[9].0));
        }
        if a == 9 {
            assert(name_lt(polish_symbol_index()[9].0, polish_symbol_index()[10].0));
        }
        if a == 10 {
            assert(name_lt(polish_symbol_index()[10].0, polish_symbol_index()[11].0));
        }
        if a == 11 {
            assert(name_lt(polish_symbol_index()[11].0, polish_symbol_index()[12].0));
        }
        if a == 12 {
            assert(name_lt(polish_symbol_index()[12].0, polish_symbol_index()[13].0));
        }
        if a == 13 {
            assert(name_lt(polish_symbol_index()[13].0, polish_symbol_index()[14].0));
        }
        if a == 14 {
            assert(name_lt(polish_symbol_index()[14].0, polish_symbol_index()[15].0));
        }
        if a == 15 {
            assert(name_lt(polish_symbol_index()[15].0, polish_symbol_index()[16].0));
        }
        if a == 16 {
            assert(name_lt(polish_symbol_index()[16].0, polish_symbol_index()[17].0));
        }
        if a == 17 {
            assert(name_lt(polish_symbol_index()[17].0, polish_symbol_index()[18].0));
        }
        if a == 18 {
            assert(name_lt(polish_symbol_index()[18].0, polish_symbol_index()[19].0));
        }
        if a == 19 {
            assert(name_lt(polish_symbol_index()[19].0, polish_symbol_index()[20].0));
        }
        if a == 20 {
            assert(name_lt(polish_symbol_index()[20].0, polish_symbol_index()[21].0));
        }
        if a == 21 {
            assert(name_lt(polish_symbol_index()[21].0, polish_symbol_index()[22].0));
        }
        if a == 22 {
            assert(name_lt(polish_symbol_index()[22].0, polish_symbol_index()[23].0));
        }
        if a == 23 {
            assert(name_lt(polish_symbol_index()[23].0, polish_symbol_index()[24].0));
        }
        if a == 24 {
            assert(name_lt(polish_symbol_index()[24].0, polish_symbol_index()[25].0));
        }
        if a == 25 {
            assert(name_lt(polish_symbol_index()[25].0, polish_symbol_index()[26].0));
        }
        if a == 26 {
            assert(name_lt(polish_symbol_index()[26].0, polish_symbol_index()[27].0));
        }
        if a == 27 {
            assert(name_lt(polish_symbol_index()[27].0, polish_symbol_index()[28].0));
        }
        if a == 28 {
            assert(name_lt(polish_symbol_index()[28].0, polish_symbol_index()[29].0));
        }
        if a == 29 {
            assert(name_lt(polish_symbol_index()[29].0, polish_symbol_index()[30].0));
        }
        if a == 30 {
            assert(name_lt(polish_symbol_index()[30].0, polish_symbol_index()[31].0));
        }
        if a == 31 {
            assert(name_lt(polish_symbol_index()[31].0, polish_symbol_index()[32].0));
        }
        if a == 32 {
            assert(name_lt(polish_symbol_index()[32].0, polish_symbol_index()[33].0));
        }
        if a == 33 {
            assert(name_lt(polish_symbol_index()[33].0, polish_symbol_index()[34].0));
        }
        if a == 34 {
            assert(name_lt(polish_symbol_index()[34].0, polish_symbol_index()[35].0));
        }
        if a == 35 {
            assert(name_lt(polish_symbol_index()[35].0, polish_symbol_index()[36].0));
        }
        if a == 36 {
            assert(name_lt(polish_symbol_index()[36].0, polish_symbol_index()[37].0));
        }
        if a == 37 {
            assert(name_lt(polish_symbol_index()[37].0, polish_symbol_index()[38].0));
        }
        if a == 38 {
            assert(name_lt(polish_symbol_index()[38].0, polish_symbol_index()[39].0));
        }
        if a == 39 {
            assert(name_lt(polish_symbol_index()[39].0, polish_symbol_index()[40].0));
        }
        if a == 40 {
            assert(name_lt(polish_symbol_index()[40].0, polish_symbol_index()[41].0));
        }
        if a == 41 {
            assert(name_lt(polish_symbol_index()[41].0, polish_symbol_index()[42].0));
        }
        if a == 42 {
            assert(name_lt(polish_symbol_index()[42].0, polish_symbol_index()[43].0));
        }
        if a == 43 {
            assert(name_lt(polish_symbol_index()[43].0, polish_symbol_index()[44].0));
        }
        if a == 44 {
            assert(name_lt(polish_symbol_index()[44].0, polish_symbol_index()[45].0));
        }
        if a == 45 {
            assert(name_lt(polish_symbol_index()[45].0, polish_symbol_index()[46].0));
        }
        if a == 46 {
            assert(name_lt(polish_symbol_index()[46].0, polish_symbol_index()[47].0));
        }
        if a == 47 {
            assert(name_lt(polish_symbol_index()[47].0, polish_symbol_index()[48].0));
        }
        if a == 48 {
            assert(name_lt(polish_symbol_index()[48].0, polish_symbol_index()[49].0));
        }
        if a == 49 {
            assert(name_lt(polish_symbol_index()[49].0, polish_symbol_index()[50].0));
        }
        if a == 50 {
            assert(name_lt(polish_symbol_index()[50].0, polish_symbol_index()[51].0));
        }
        if a == 51 {
            assert(name_lt(polish_symbol_index()[51].0, polish_symbol_index()[52].0));
        }
        if a == 52 {
            assert(name_lt(polish_symbol_index()[52].0, polish_symbol_index()[53].0));
        }
        if a == 53 {
            assert(name_lt(polish_symbol_index()[53].0, polish_symbol_index()[54].0));
        }
        if a == 54 {
            assert(name_lt(polish_symbol_index()[54].0, polish_symbol_index()[55].0));
        }
        if a == 55 {
            assert(name_lt(polish_symbol_index()[55].0, polish_symbol_index()[56].0));
        }
        if a == 56 {
            assert(name_lt(polish_symbol_index()[56].0, polish_symbol_index()[57].0));
        }
        if a == 57 {
            assert(name_lt(polish_symbol_index()[57].0, polish_symbol_index()[58].0));
        }
        if a == 58 {
            assert(name_lt(polish_symbol_index()[58].0, polish_symbol_index()[59].0));
        }
        if a == 59 {
            assert(name_lt(polish_symbol_index()[59].0, polish_symbol_index()[60].0));
        }
        if a == 60 {
            assert(name_lt(polish_symbol_index()[60].0, polish_symbol_index()[61].0));
        }
        if a == 61 {
            assert(name_lt(polish_symbol_index()[61].0, polish_symbol_index()[62].0));
        }
        if a == 62 {
            assert(name_lt(polish_symbol_index()[62].0, polish_symbol_index()[63].0));
        }
        if a == 63 {
            assert(name_lt(polish_symbol_index()[63].0, polish_symbol_index()[64].0));
        }
        if a == 64 {
            assert(name_lt(polish_symbol_index()[64].0, polish_symbol_index()[65].0));
        }
        if a == 65 {
            assert(name_lt(polish_symbol_index()[65].0, polish_symbol_index()[66].0));
        }
        if a == 66 {
            assert(name_lt(polish_symbol_index()[66].0, polish_symbol_index()[67].0));
        }
        if a == 67 {
            assert(name_lt(polish_symbol_index()[67].0, polish_symbol_index()[68].0));
        }
        if a == 68 {
            assert(name_lt(polish_symbol_index()[68].0, polish_symbol_index()[69].0));
        }
        if a == 69 {
            assert(name_lt(polish_symbol_index()[69].0, polish_symbol_index()[70].0));
        }
        if a == 70 {
            assert(name_lt(polish_symbol_index()[70].0, polish_symbol_index()[71].0));
        }
    }
}

/// The index is strictly increasing: no folded phrase occurs twice in it.
proof fn lemma_polish_symbol_index_sorted(a: int, b: int)
    requires
        0 <= a < b < polish_symbol_index().len(),
    ensures
        name_lt(polish_symbol_index()[a].0, polish_symbol_index()[b].0),
    decreases b - a,
{
    lemma_polish_symbol_index_steps();
    assert(name_lt(polish_symbol_index()[b - 1].0, polish_symbol_index()[b].0));
    if a < b - 1 {
        lemma_polish_symbol_index_sorted(a, b - 1);
        lemma_name_lt_transitive(
            polish_symbol_index()[a].0,
            polish_symbol_index()[b - 1].0,
            polish_symbol_index()[b].0,
        );
    }
}

/// Every phrase of the Polish symbol table is words of lower-case Polish
/// letters separated by single spaces, and every symbol is one character.
pub proof fn lemma_polish_symbol_shapes(k: int)
    requires
        0 <= k < POLISH_SYMBOLS@.len(),
    ensures
        single_spaced(POLISH_SYMBOLS@[k].0@),
        forall|i: int| 0 <= i < POLISH_SYMBOLS@[k].0@.len() ==> #[trigger] phrase_char(POLISH_SYMBOLS@[k].0@[i]),
        POLISH_SYMBOLS@[k].1@.len() == 1,
{
    lemma_polish_symbols_indexed();
    assert(indexed(k));
}

/// Phrases that are the same spoken words give the same symbol: two entries
/// of the Polish symbol table whose phrases fold alike (Polish letters
/// without diacritics, ASCII in lower case) carry the same symbol, as do
/// "równa się" and "rowna sie", or "małpa" and "malpa".
pub proof fn lemma_polish_symbols_consistent(k1: int, k2: int)
    requires
        0 <= k1 < POLISH_SYMBOLS@.len(),
        0 <= k2 < POLISH_SYMBOLS@.len(),
        normalize(POLISH_SYMBOLS@[k1].0@) == normalize(POLISH_SYMBOLS@[k2].0@),
    ensures
        POLISH_SYMBOLS@[k1].1@ == POLISH_SYMBOLS@[k2].1@,
{
    lemma_polish_symbols_indexed();
    assert(indexed(k1));
    assert(indexed(k2));
    let g1 = choose|g: int| #[trigger] indexed_at(k1, g);
    let g2 = choose|g: int| #[trigger] indexed_at(k2, g);
    if g1 < g2 {
        lemma_polish_symbol_index_sorted(g1, g2);
        lemma_name_lt_irreflexive(polish_symbol_index()[g1].0);
    } else if g2 < g1 {
        lemma_polish_symbol_index_sorted(g2, g1);
        lemma_name_lt_irreflexive(polish_symbol_index()[g2].0);
    }
}

/// The English symbol phrases, each with its place in the table, in
/// strictly increasing order of code points.
pub open spec fn english_symbol_index() -> Seq<(Seq<char>, int)> {
    seq![
        ("amp"@, 92int),
        ("ampersand"@, 59int),
        ("apostrophe"@, 57int),
        ("asterisk"@, 67int),
        ("at"@, 94int),
        ("at sign"@, 69int),
        ("at symbol"@, 58int),
        ("back slash"@, 56int),
        ("back tick"@, 65int),
        ("backslash"@, 61int),
        ("backtick"@, 68int),
        ("caret"@, 76int),
        ("circumflex"@, 49int),
        ("close angle bracket"@, 7int),
        ("close brace"@, 46int),
        ("close bracket"@, 25int),
        ("close curly brace"@, 13int),
        ("close paren"@, 43int),
        ("close parenthesis"@, 11int),
        ("close square bracket"@, 0int),
        ("closing brace"@, 28int),
        ("closing bracket"@, 22int),
        ("closing parenthesis"@, 3int),
        ("colon"@, 79int),
        ("comma"@, 81int),
        ("dash"@, 88int),
        ("dollar"@, 72int),
        ("dollar sign"@, 42int),
        ("dot"@, 93int),
        ("double quote"@, 37int),
        ("equal"@, 78int),
        ("equal sign"@, 53int),
        ("equals"@, 74int),
        ("equals sign"@, 45int),
        ("exclamation"@, 40int),
        ("exclamation mark"@, 16int),
        ("exclamation point"@, 10int),
        ("forward slash"@, 31int),
        ("full stop"@, 64int),
        ("grave"@, 85int),
        ("grave accent"@, 39int),
        ("greater than"@, 38int),
        ("greater than sign"@, 15int),
        ("hash"@, 86int),
        ("hash tag"@, 66int),
        ("hashtag"@, 70int),
        ("hat"@, 91int),
        ("hyphen"@, 73int),
        ("left angle bracket"@, 8int),
        ("left brace"@, 55int),
        ("left bracket"@, 34int),
        ("left curly brace"@, 20int),
        ("left paren"@, 51int),
        ("left parenthesis"@, 18int),
        ("left square bracket"@, 5int),
        ("less than"@, 63int),
        ("less than sign"@, 24int),
        ("minus"@, 77int),
        ("number sign"@, 41int),
        ("open angle bracket"@, 9int),
        ("open brace"@, 54int),
        ("open bracket"@, 33int),
        ("open curly brace"@, 19int),
        ("open paren"@, 50int),
        ("open parenthesis"@, 17int),
        ("open square bracket"@, 4int),
        ("opening brace"@, 27int),
        ("opening bracket"@, 21int),
        ("opening parenthesis"@, 2int),
        ("percent"@, 71int),
        ("percent sign"@, 32int),
        ("period"@, 75int),
        ("pipe"@, 90int),
        ("plus"@, 89int),
        ("plus sign"@, 60int),
        ("point"@, 82int),
        ("pound sign"@, 48int),
        ("question mark"@, 30int),
        ("quotation mark"@, 23int),
        ("quote"@, 80int),
        ("right angle bracket"@, 6int),
        ("right brace"@, 47int),
        ("right bracket"@, 26int),
        ("right curly brace"@, 14int),
        ("right paren"@, 44int),
        ("right parenthesis"@, 12int),
        ("right square bracket"@, 1int),
        ("semicolon"@, 62int),
        ("single quote"@, 36int),
        ("slash"@, 83int),
        ("star"@, 87int),
        ("tilde"@, 84int),
        ("underscore"@, 52int),
        ("vertical bar"@, 35int),
        ("vertical line"@, 29int),
    ]
}

/// The English symbol phrase at `k` is the one at `g` of the index.
pub open spec fn english_indexed_at(k: int, g: int) -> bool {
    &&& 0 <= g < english_symbol_index().len()
    &&& english_symbol_index()[g].0 == ENGLISH_SYMBOLS@[k].0@
    &&& english_symbol_index()[g].1 == k
}

pub open spec fn english_indexed(k: int) -> bool {
    exists|g: int| #[trigger] english_indexed_at(k, g)
}

#[verifier::rlimit(100)]
proof fn lemma_english_symbols_indexed()
    ensures
        forall|k: int| 0 <= k < ENGLISH_SYMBOLS@.len() ==> #[trigger] english_indexed(k),
{
    assert(english_indexed_at(0, 19)) by {
        assert(ENGLISH_SYMBOLS@[0].0 == "close square bracket");
        assert(english_symbol_index()[19] == ("close square bracket"@, 0int));
    }
    assert(english_indexed_at(1, 86)) by {
        assert(ENGLISH_SYMBOLS@[1].0 == "right square bracket");
        assert(english_symbol_index()[86] == ("right square bracket"@, 1int));
    }
    assert(english_indexed_at(2, 68)) by {
        assert(ENGLISH_SYMBOLS@[2].0 == "opening parenthesis");
        assert(english_symbol_index()[68] == ("opening parenthesis"@, 2int));
    }
    assert(english_indexed_at(3, 22)) by {
        assert(ENGLISH_SYMBOLS@[3].0 == "closing parenthesis");
        assert(english_symbol_index()[22] == ("closing parenthesis"@, 3int));
    }
    assert(english_indexed_at(4, 65)) by {
        assert(ENGLISH_SYMBOLS@[4].0 == "open square bracket");
        assert(english_symbol_index()[65] == ("open square bracket"@, 4int));
    }
    assert(english_indexed_at(5, 54)) by {
        assert(ENGLISH_SYMBOLS@[5].0 == "left square bracket");
        assert(english_symbol_index()[54] == ("left square bracket"@, 5int));
    }
    assert(english_indexed_at(6, 80)) by {
        assert(ENGLISH_SYMBOLS@[6].0 == "right angle bracket");
        assert(english_symbol_index()[80] == ("right angle bracket"@, 6int));
    }
    assert(english_indexed_at(7, 13)) by {
        assert(ENGLISH_SYMBOLS@[7].0 == "close angle bracket");
        assert(english_symbol_index()[13] == ("close angle bracket"@, 7int));
    }
    assert(english_indexed_at(8, 48)) by {
        assert(ENGLISH_SYMBOLS@[8].0 == "left angle bracket");
        assert(english_symbol_index()[48] == ("left angle bracket"@, 8int));
    }
    assert(english_indexed_at(9, 59)) by {
        assert(ENGLISH_SYMBOLS@[9].0 == "open angle bracket");
        assert(english_symbol_index()[59] == ("open angle bracket"@, 9int));
    }
    assert(english_indexed_at(10, 36)) by {
        assert(ENGLISH_SYMBOLS@[10].0 == "exclamation point");
        assert(english_symbol_index()[36] == ("exclamation point"@, 10int));
    }
    assert(english_indexed_at(11, 18)) by {
        assert(ENGLISH_SYMBOLS@[11].0 == "close parenthesis");
        assert(english_symbol_index()[18] == ("close parenthesis"@, 11int));
    }
    assert(english_indexed_at(12, 85)) by {
        assert(ENGLISH_SYMBOLS@[12].0 == "right parenthesis");
        assert(english_symbol_index()[85] == ("right parenthesis"@, 12int));
    }
    assert(english_indexed_at(13, 16)) by {
        assert(ENGLISH_SYMBOLS@[13].0 == "close curly brace");
        assert(english_symbol_index()[16] == ("close curly brace"@, 13int));
    }
    assert(english_indexed_at(14, 83)) by {
        assert(ENGLISH_SYMBOLS@[14].0 == "right curly brace");
        assert(english_symbol_index()[83] == ("right curly brace"@, 14int));
    }
    assert(english_indexed_at(15, 42)) by {
        assert(ENGLISH_SYMBOLS@[15].0 == "greater than sign");
        assert(english_symbol_index()[42] == ("greater than sign"@, 15int));
    }
    assert(english_indexed_at(16, 35)) by {
        assert(ENGLISH_SYMBOLS@[16].0 == "exclamation mark");
        assert(english_symbol_index()[35] == ("exclamation mark"@, 16int));
    }
    assert(english_indexed_at(17, 64)) by {
        assert(ENGLISH_SYMBOLS@[17].0 == "open parenthesis");
        assert(english_symbol_index()[64] == ("open parenthesis"@, 17int));
    }
    assert(english_indexed_at(18, 53)) by {
        assert(ENGLISH_SYMBOLS@[18].0 == "left parenthesis");
        assert(english_symbol_index()[53] == ("left parenthesis"@, 18int));
    }
    assert(english_indexed_at(19, 62)) by {
        assert(ENGLISH_SYMBOLS@[19].0 == "open curly brace");
        assert(english_symbol_index()[62] == ("open curly brace"@, 19int));
    }
    assert(english_indexed_at(20, 51)) by {
        assert(ENGLISH_SYMBOLS@[20].0 == "left curly brace");
        assert(english_symbol_index()[51] == ("left curly brace"@, 20int));
    }
    assert(english_indexed_at(21, 67)) by {
        assert(ENGLISH_SYMBOLS@[21].0 == "opening bracket");
        assert(english_symbol_index()[67] == ("opening bracket"@, 21int));
    }
    assert(english_indexed_at(22, 21)) by {
        assert(ENGLISH_SYMBOLS@[22].0 == "closing bracket");
        assert(english_symbol_index()[21] == ("closing bracket"@, 22int));
    }
    assert(english_indexed_at(23, 78)) by {
        assert(ENGLISH_SYMBOLS@[23].0 == "quotation mark");
        assert(english_symbol_index()[78] == ("quotation mark"@, 23int));
    }
    assert(english_indexed_at(24, 56)) by {
        assert(ENGLISH_SYMBOLS@[24].0 == "less than sign");
        assert(english_symbol_index()[56] == ("less than sign"@, 24int));
    }
    assert(english_indexed_at(25, 15)) by {
        assert(ENGLISH_SYMBOLS@[25].0 == "close bracket");
        assert(english_symbol_index()[15] == ("close bracket"@, 25int));
    }
    assert(english_indexed_at(26, 82)) by {
        assert(ENGLISH_SYMBOLS@[26].0 == "right bracket");
        assert(english_symbol_index()[82] == ("right bracket"@, 26int));
    }
    assert(english_indexed_at(27, 66)) by {
        assert(ENGLISH_SYMBOLS@[27].0 == "opening brace");
        assert(english_symbol_index()[66] == ("opening brace"@, 27int));
    }
    assert(english_indexed_at(28, 20)) by {
        assert(ENGLISH_SYMBOLS@[28].0 == "closing brace");
        assert(english_symbol_index()[20] == ("closing brace"@, 28int));
    }
    assert(english_indexed_at(29, 94)) by {
        assert(ENGLISH_SYMBOLS@[29].0 == "vertical line");
        assert(english_symbol_index()[94] == ("vertical line"@, 29int));
    }
    assert(english_indexed_at(30, 77)) by {
        assert(ENGLISH_SYMBOLS@[30].0 == "question mark");
        assert(english_symbol_index()[77] == ("question mark"@, 30int));
    }
    assert(english_indexed_at(31, 37)) by {
        assert(ENGLISH_SYMBOLS@[31].0 == "forward slash");
        assert(english_symbol_index()[37] == ("forward slash"@, 31int));
    }
    assert(english_indexed_at(32, 70)) by {
        assert(ENGLISH_SYMBOLS@[32].0 == "percent sign");
        assert(english_symbol_index()[70] == ("percent sign"@, 32int));
    }
    assert(english_indexed_at(33, 61)) by {
        assert(ENGLISH_SYMBOLS@[33].0 == "open bracket");
        assert(english_symbol_index()[61] == ("open bracket"@, 33int));
    }
    assert(english_indexed_at(34, 50)) by {
        assert(ENGLISH_SYMBOLS@[34].0 == "left bracket");
        assert(english_symbol_index()[50] == ("left bracket"@, 34int));
    }
    assert(english_indexed_at(35, 93)) by {
        assert(ENGLISH_SYMBOLS@[35].0 == "vertical bar");
        assert(english_symbol_index()[93] == ("vertical bar"@, 35int));
    }
    assert(english_indexed_at(36, 88)) by {
        assert(ENGLISH_SYMBOLS@[36].0 == "single quote");
        assert(english_symbol_index()[88] == ("single quote"@, 36int));
    }
    assert(english_indexed_at(37, 29)) by {
        assert(ENGLISH_SYMBOLS@[37].0 == "double quote");
        assert(english_symbol_index()[29] == ("double quote"@, 37int));
    }
    assert(english_indexed_at(38, 41)) by {
        assert(ENGLISH_SYMBOLS@[38].0 == "greater than");
        assert(english_symbol_index()[41] == ("greater than"@, 38int));
    }
    assert(english_indexed_at(39, 40)) by {
        assert(ENGLISH_SYMBOLS@[39].0 == "grave accent");
        assert(english_symbol_index()[40] == ("grave accent"@, 39int));
    }
    assert(english_indexed_at(40, 34)) by {
        assert(ENGLISH_SYMBOLS@[40].0 == "exclamation");
        assert(english_symbol_index()[34] == ("exclamation"@, 40int));
    }
    assert(english_indexed_at(41, 58)) by {
        assert(ENGLISH_SYMBOLS@[41].0 == "number sign");
        assert(english_symbol_index()[58] == ("number sign"@, 41int));
    }
    assert(english_indexed_at(42, 27)) by {
        assert(ENGLISH_SYMBOLS@[42].0 == "dollar sign");
        assert(english_symbol_index()[27] == ("dollar sign"@, 42int));
    }
    assert(english_indexed_at(43, 17)) by {
        assert(ENGLISH_SYMBOLS@[43].0 == "close paren");
        assert(english_symbol_index()[17] == ("close paren"@, 43int));
    }
    assert(english_indexed_at(44, 84)) by {
        assert(ENGLISH_SYMBOLS@[44].0 == "right paren");
        assert(english_symbol_index()[84] == ("right paren"@, 44int));
    }
    assert(english_indexed_at(45, 33)) by {
        assert(ENGLISH_SYMBOLS@[45].0 == "equals sign");
        assert(english_symbol_index()[33] == ("equals sign"@, 45int));
    }
    assert(english_indexed_at(46, 14)) by {
        assert(ENGLISH_SYMBOLS@[46].0 == "close brace");
        assert(english_symbol_index()[14] == ("close brace"@, 46int));
    }
    assert(english_indexed_at(47, 81)) by {
        assert(ENGLISH_SYMBOLS@[47].0 == "right brace");
        assert(english_symbol_index()[81] == ("right brace"@, 47int));
    }
    assert(english_indexed_at(48, 76)) by {
        assert(ENGLISH_SYMBOLS@[48].0 == "pound sign");
        assert(english_symbol_index()[76] == ("pound sign"@, 48int));
    }
    assert(english_indexed_at(49, 12)) by {
        assert(ENGLISH_SYMBOLS@[49].0 == "circumflex");
        assert(english_symbol_index()[12] == ("circumflex"@, 49int));
    }
    assert(english_indexed_at(50, 63)) by {
        assert(ENGLISH_SYMBOLS@[50].0 == "open paren");
        assert(english_symbol_index()[63] == ("open paren"@, 50int));
    }
    assert(english_indexed_at(51, 52)) by {
        assert(ENGLISH_SYMBOLS@[51].0 == "left paren");
        assert(english_symbol_index()[52] == ("left paren"@, 51int));
    }
    assert(english_indexed_at(52, 92)) by {
        assert(ENGLISH_SYMBOLS@[52].0 == "underscore");
        assert(english_symbol_index()[92] == ("underscore"@, 52int));
    }
    assert(english_indexed_at(53, 31)) by {
        assert(ENGLISH_SYMBOLS@[53].0 == "equal sign");
        assert(english_symbol_index()[31] == ("equal sign"@, 53int));
    }
    assert(english_indexed_at(54, 60)) by {
        assert(ENGLISH_SYMBOLS@[54].0 == "open brace");
        assert(english_symbol_index()[60] == ("open brace"@, 54int));
    }
    assert(english_indexed_at(55, 49)) by {
        assert(ENGLISH_SYMBOLS@[55].0 == "left brace");
        assert(english_symbol_index()[49] == ("left brace"@, 55int));
    }
    assert(english_indexed_at(56, 7)) by {
        assert(ENGLISH_SYMBOLS@[56].0 == "back slash");
        assert(english_symbol_index()[7] == ("back slash"@, 56int));
    }
    assert(english_indexed_at(57, 2)) by {
        assert(ENGLISH_SYMBOLS@[57].0 == "apostrophe");
        assert(english_symbol_index()[2] == ("apostrophe"@, 57int));
    }
    assert(english_indexed_at(58, 6)) by {
        assert(ENGLISH_SYMBOLS@[58].0 == "at symbol");
        assert(english_symbol_index()[6] == ("at symbol"@, 58int));
    }
    assert(english_indexed_at(59, 1)) by {
        assert(ENGLISH_SYMBOLS@[59].0 == "ampersand");
        assert(english_symbol_index()[1] == ("ampersand"@, 59int));
    }
    assert(english_indexed_at(60, 74)) by {
        assert(ENGLISH_SYMBOLS@[60].0 == "plus sign");
        assert(english_symbol_index()[74] == ("plus sign"@, 60int));
    }
    assert(english_indexed_at(61, 9)) by {
        assert(ENGLISH_SYMBOLS@[61].0 == "backslash");
        assert(english_symbol_index()[9] == ("backslash"@, 61int));
    }
    assert(english_indexed_at(62, 87)) by {
        assert(ENGLISH_SYMBOLS@[62].0 == "semicolon");
        assert(english_symbol_index()[87] == ("semicolon"@, 62int));
    }
    assert(english_indexed_at(63, 55)) by {
        assert(ENGLISH_SYMBOLS@[63].0 == "less than");
        assert(english_symbol_index()[55] == ("less than"@, 63int));
    }
    assert(english_indexed_at(64, 38)) by {
        assert(ENGLISH_SYMBOLS@[64].0 == "full stop");
        assert(english_symbol_index()[38] == ("full stop"@, 64int));
    }
    assert(english_indexed_at(65, 8)) by {
        assert(ENGLISH_SYMBOLS@[65].0 == "back tick");
        assert(english_symbol_index()[8] == ("back tick"@, 65int));
    }
    assert(english_indexed_at(66, 44)) by {
        assert(ENGLISH_SYMBOLS@[66].0 == "hash tag");
        assert(english_symbol_index()[44] == ("hash tag"@, 66int));
    }
    assert(english_indexed_at(67, 3)) by {
        assert(ENGLISH_SYMBOLS@[67].0 == "asterisk");
        assert(english_symbol_index()[3] == ("asterisk"@, 67int));
    }
    assert(english_indexed_at(68, 10)) by {
        assert(ENGLISH_SYMBOLS@[68].0 == "backtick");
        assert(english_symbol_index()[10] == ("backtick"@, 68int));
    }
    assert(english_indexed_at(69, 5)) by {
        assert(ENGLISH_SYMBOLS@[69].0 == "at sign");
        assert(english_symbol_index()[5] == ("at sign"@, 69int));
    }
    assert(english_indexed_at(70, 45)) by {
        assert(ENGLISH_SYMBOLS@[70].0 == "hashtag");
        assert(english_symbol_index()[45] == ("hashtag"@, 70int));
    }
    assert(english_indexed_at(71, 69)) by {
        assert(ENGLISH_SYMBOLS@[71].0 == "percent");
        assert(english_symbol_index()[69] == ("percent"@, 71int));
    }
    assert(english_indexed_at(72, 26)) by {
        assert(ENGLISH_SYMBOLS@[72].0 == "dollar");
        assert(english_symbol_index()[26] == ("dollar"@, 72int));
    }
    assert(english_indexed_at(73, 47)) by {
        assert(ENGLISH_SYMBOLS@[73].0 == "hyphen");
        assert(english_symbol_index()[47] == ("hyphen"@, 73int));
    }
    assert(english_indexed_at(74, 32)) by {
        assert(ENGLISH_SYMBOLS@[74].0 == "equals");
        assert(english_symbol_index()[32] == ("equals"@, 74int));
    }
    assert(english_indexed_at(75, 71)) by {
        assert(ENGLISH_SYMBOLS@[75].0 == "period");
        assert(english_symbol_index()[71] == ("period"@, 75int));
    }
    assert(english_indexed_at(76, 11)) by {
        assert(ENGLISH_SYMBOLS@[76].0 == "caret");
        assert(english_symbol_index()[11] == ("caret"@, 76int));
    }
    assert(english_indexed_at(77, 57)) by {
        assert(ENGLISH_SYMBOLS@[77].0 == "minus");
        assert(english_symbol_index()[57] == ("minus"@, 77int));
    }
    assert(english_indexed_at(78, 30)) by {
        assert(ENGLISH_SYMBOLS@[78].0 == "equal");
        assert(english_symbol_index()[30] == ("equal"@, 78int));
    }
    assert(english_indexed_at(79, 23)) by {
        assert(ENGLISH_SYMBOLS@[79].0 == "colon");
        assert(english_symbol_index()[23] == ("colon"@, 79int));
    }
    assert(english_indexed_at(80, 79)) by {
        assert(ENGLISH_SYMBOLS@[80].0 == "quote");
        assert(english_symbol_index()[79] == ("quote"@, 80int));
    }
    assert(english_indexed_at(81, 24)) by {
        assert(ENGLISH_SYMBOLS@[81].0 == "comma");
        assert(english_symbol_index()[24] == ("comma"@, 81int));
    }
    assert(english_indexed_at(82, 75)) by {
        assert(ENGLISH_SYMBOLS@[82].0 == "point");
        assert(english_symbol_index()[75] == ("point"@, 82int));
    }
    assert(english_indexed_at(83, 89)) by {
        assert(ENGLISH_SYMBOLS@[83].0 == "slash");
        assert(english_symbol_index()[89] == ("slash"@, 83int));
    }
    assert(english_indexed_at(84, 91)) by {
        assert(ENGLISH_SYMBOLS@[84].0 == "tilde");
        assert(english_symbol_index()[91] == ("tilde"@, 84int));
    }
    assert(english_indexed_at(85, 39)) by {
        assert(ENGLISH_SYMBOLS@[85].0 == "grave");
        assert(english_symbol_index()[39] == ("grave"@, 85int));
    }
    assert(english_indexed_at(86, 43)) by {
        assert(ENGLISH_SYMBOLS@[86].0 == "hash");
        assert(english_symbol_index()[43] == ("hash"@, 86int));
    }
    assert(english_indexed_at(87, 90)) by {
        assert(ENGLISH_SYMBOLS@[87].0 == "star");
        assert(english_symbol_index()[90] == ("star"@, 87int));
    }
    assert(english_indexed_at(88, 25)) by {
        assert(ENGLISH_SYMBOLS@[88].0 == "dash");
        assert(english_symbol_index()[25] == ("dash"@, 88int));
    }
    assert(english_indexed_at(89, 73)) by {
        assert(ENGLISH_SYMBOLS@[89].0 == "plus");
        assert(english_symbol_index()[73] == ("plus"@, 89int));
    }
    assert(english_indexed_at(90, 72)) by {
        assert(ENGLISH_SYMBOLS@[90].0 == "pipe");
        assert(english_symbol_index()[72] == ("pipe"@, 90int));
    }
    assert(english_indexed_at(91, 46)) by {
        assert(ENGLISH_SYMBOLS@[91].0 == "hat");
        assert(english_symbol_index()[46] == ("hat"@, 91int));
    }
    assert(english_indexed_at(92, 0)) by {
        assert(ENGLISH_SYMBOLS@[92].0 == "amp");
        assert(english_symbol_index()[0] == ("amp"@, 92int));
    }
    assert(english_indexed_at(93, 28)) by {
        assert(ENGLISH_SYMBOLS@[93].0 == "dot");
        assert(english_symbol_index()[28] == ("dot"@, 93int));
    }
    assert(english_indexed_at(94, 4)) by {
        assert(ENGLISH_SYMBOLS@[94].0 == "at");
        assert(english_symbol_index()[4] == ("at"@, 94int));
    }
    assert forall|k: int| 0 <= k < ENGLISH_SYMBOLS@.len() implies #[trigger] english_indexed(k) by {
        if k == 0 {
            assert(english_indexed_at(0, 19));
        }
        if k == 1 {
            assert(english_indexed_at(1, 86));
        }
        if k == 2 {
            assert(english_indexed_at(2, 68));
        }
        if k == 3 {
            assert(english_indexed_at(3, 22));
        }
        if k == 4 {
            assert(english_indexed_at(4, 65));
        }
        if k == 5 {
            assert(english_indexed_at(5, 54));
        }
        if k == 6 {
            assert(english_indexed_at(6, 80));
        }
        if k == 7 {
            assert(english_indexed_at(7, 13));
        }
        if k == 8 {
            assert(english_indexed_at(8, 48));
        }
        if k == 9 {
            assert(english_indexed_at(9, 59));
        }
        if k == 10 {
            assert(english_indexed_at(10, 36));
        }
        if k == 11 {
            assert(english_indexed_at(11, 18));
        }
        if k == 12 {
            assert(english_indexed_at(12, 85));
        }
        if k == 13 {
            assert(english_indexed_at(13, 16));
        }
        if k == 14 {
            assert(english_indexed_at(14, 83));
        }
        if k == 15 {
            assert(english_indexed_at(15, 42));
        }
        if k == 16 {
            assert(english_indexed_at(16, 35));
        }
        if k == 17 {
            assert(english_indexed_at(17, 64));
        }
        if k == 18 {
            assert(english_indexed_at(18, 53));
        }
        if k == 19 {
            assert(english_indexed_at(19, 62));
        }
        if k == 20 {
            assert(english_indexed_at(20, 51));
        }
        if k == 21 {
            assert(english_indexed_at(21, 67));
        }
        if k == 22 {
            assert(english_indexed_at(22, 21));
        }
        if k == 23 {
            assert(english_indexed_at(23, 78));
        }
        if k == 24 {
            assert(english_indexed_at(24, 56));
        }
        if k == 25 {
            assert(english_indexed_at(25, 15));
        }
        if k == 26 {
            assert(english_indexed_at(26, 82));
        }
        if k == 27 {
            assert(english_indexed_at(27, 66));
        }
        if k == 28 {
            assert(english_indexed_at(28, 20));
        }
        if k == 29 {
            assert(english_indexed_at(29, 94));
        }
        if k == 30 {
            assert(english_indexed_at(30, 77));
        }
        if k == 31 {
            assert(english_indexed_at(31, 37));
        }
        if k == 32 {
            assert(english_indexed_at(32, 70));
        }
        if k == 33 {
            assert(english_indexed_at(33, 61));
        }
        if k == 34 {
            assert(english_indexed_at(34, 50));
        }
        if k == 35 {
            assert(english_indexed_at(35, 93));
        }
        if k == 36 {
            assert(english_indexed_at(36, 88));
        }
        if k == 37 {
            assert(english_indexed_at(37, 29));
        }
        if k == 38 {
            assert(english_indexed_at(38, 41));
        }
        if k == 39 {
            assert(english_indexed_at(39, 40));
        }
        if k == 40 {
            assert(english_indexed_at(40, 34));
        }
        if k == 41 {
            assert(english_indexed_at(41, 58));
        }
        if k == 42 {
            assert(english_indexed_at(42, 27));
        }
        if k == 43 {
            assert(english_indexed_at(43, 17));
        }
        if k == 44 {
            assert(english_indexed_at(44, 84));
        }
        if k == 45 {
            assert(english_indexed_at(45, 33));
        }
        if k == 46 {
            assert(english_indexed_at(46, 14));
        }
        if k == 47 {
            assert(english_indexed_at(47, 81));
        }
        if k == 48 {
            assert(english_indexed_at(48, 76));
        }
        if k == 49 {
            assert(english_indexed_at(49, 12));
        }
        if k == 50 {
            assert(english_indexed_at(50, 63));
        }
        if k == 51 {
            assert(english_indexed_at(51, 52));
        }
        if k == 52 {
            assert(english_indexed_at(52, 92));
        }
        if k == 53 {
            assert(english_indexed_at(53, 31));
        }
        if k == 54 {
            assert(english_indexed_at(54, 60));
        }
        if k == 55 {
            assert(english_indexed_at(55, 49));
        }
        if k == 56 {
            assert(english_indexed_at(56, 7));
        }
        if k == 57 {
            assert(english_indexed_at(57, 2));
        }
        if k == 58 {
            assert(english_indexed_at(58, 6));
        }
        if k == 59 {
            assert(english_indexed_at(59, 1));
        }
        if k == 60 {
            assert(english_indexed_at(60, 74));
        }
        if k == 61 {
            assert(english_indexed_at(61, 9));
        }
        if k == 62 {
            assert(english_indexed_at(62, 87));
        }
        if k == 63 {
            assert(english_indexed_at(63, 55));
        }
        if k == 64 {
            assert(english_indexed_at(64, 38));
        }
        if k == 65 {
            assert(english_indexed_at(65, 8));
        }
        if k == 66 {
            assert(english_indexed_at(66, 44));
        }
        if k == 67 {
            assert(english_indexed_at(67, 3));
        }
        if k == 68 {
            assert(english_indexed_at(68, 10));
        }
        if k == 69 {
            assert(english_indexed_at(69, 5));
        }
        if k == 70 {
            assert(english_indexed_at(70, 45));
        }
        if k == 71 {
            assert(english_indexed_at(71, 69));
        }
        if k == 72 {
            assert(english_indexed_at(72, 26));
        }
        if k == 73 {
            assert(english_indexed_at(73, 47));
        }
        if k == 74 {
            assert(english_indexed_at(74, 32));
        }
        if k == 75 {
            assert(english_indexed_at(75, 71));
        }
        if k == 76 {
            assert(english_indexed_at(76, 11));
        }
        if k == 77 {
            assert(english_indexed_at(77, 57));
        }
        if k == 78 {
            assert(english_indexed_at(78, 30));
        }
        if k == 79 {
            assert(english_indexed_at(79, 23));
        }
        if k == 80 {
            assert(english_indexed_at(80, 79));
        }
        if k == 81 {
            assert(english_indexed_at(81, 24));
        }
        if k == 82 {
            assert(english_indexed_at(82, 75));
        }
        if k == 83 {
            assert(english_indexed_at(83, 89));
        }
        if k == 84 {
            assert(english_indexed_at(84, 91));
        }
        if k == 85 {
            assert(english_indexed_at(85, 39));
        }
        if k == 86 {
            assert(english_indexed_at(86, 43));
        }
        if k == 87 {
            assert(english_indexed_at(87, 90));
        }
        if k == 88 {
            assert(english_indexed_at(88, 25));
        }
        if k == 89 {
            assert(english_indexed_at(89, 73));
        }
        if k == 90 {
            assert(english_indexed_at(90, 72));
        }
        if k == 91 {
            assert(english_indexed_at(91, 46));
        }
        if k == 92 {
            assert(english_indexed_at(92, 0));
        }
        if k == 93 {
            assert(english_indexed_at(93, 28));
        }
        if k == 94 {
            assert(english_indexed_at(94, 4));
        }
    }
}

#[verifier::rlimit(100)]
proof fn lemma_english_symbol_index_steps()
    ensures
        forall|a: int|
            0 <= a < english_symbol_index().len() - 1 ==> name_lt(
                #[trigger] english_symbol_index()[a].0,
                english_symbol_index()[a + 1].0,
            ),
{
    assert(name_lt(english_symbol_index()[0].0, english_symbol_index()[1].0)) by {
        assert(english_symbol_index()[0].0 == "amp"@);
        assert(english_symbol_index()[1].0 == "ampersand"@);
        reveal_strlit("amp");
        reveal_strlit("ampersand");
        reveal_with_fuel(name_lt, 5);
    }
    assert(name_lt(english_symbol_index()[1].0, english_symbol_index()[2].0)) by {
        assert(english_symbol_index()[1].0 == "ampersand"@);
        assert(english_symbol_index()[2].0 == "apostrophe"@);
        reveal_strlit("ampersand");
        reveal_strlit("apostrophe");
        reveal_with_fuel(name_lt, 3);
    }
    assert(name_lt(english_symbol_index()[2].0, english_symbol_index()[3].0)) by {
        assert(english_symbol_index()[2].0 == "apostrophe"@);
        assert(english_symbol_index()[3].0 == "asterisk"@);
        reveal_strlit("apostrophe");
        reveal_strlit("asterisk");
        reveal_with_fuel(name_lt, 3);
    }
    assert(name_lt(english_symbol_index()[3].0, english_symbol_index()[4].0)) by {
        assert(english_symbol_index()[3].0 == "asterisk"@);
        assert(english_symbol_index()[4].0 == "at"@);
        reveal_strlit("asterisk");
        reveal_strlit("at");
        reveal_with_fuel(name_lt, 3);
    }
    assert(name_lt(english_symbol_index()[4].0, english_symbol_index()[5].0)) by {
        assert(english_symbol_index()[4].0 == "at"@);
        assert(english_symbol_index()[5].0 == "at sign"@);
        reveal_strlit("at");
        reveal_strlit("at sign");
        reveal_with_fuel(name_lt, 4);
    }
    assert(name_lt(english_symbol_index()[5].0, english_symbol_index()[6].0)) by {
        assert(english_symbol_index()[5].0 == "at sign"@);
        assert(english_symbol_index()[6].0 == "at symbol"@);
        reveal_strlit("at sign");
        reveal_strlit("at symbol");
        reveal_with_fuel(name_lt, 6);
    }
    assert(name_lt(english_symbol_index()[6].0, english_symbol_index()[7].0)) by {
        assert(english_symbol_index()[6].0 == "at symbol"@);
        assert(english_symbol_index()[7].0 == "back slash"@);
        reveal_strlit("at symbol");
        reveal_strlit("back slash");
        reveal_with_fuel(name_lt, 2);
    }
    assert(name_lt(english_symbol_index()[7].0, english_symbol_index()[8].0)) by {
        assert(english_symbol_index()[7].0 == "back slash"@);
        assert(english_symbol_index()[8].0 == "back tick"@);
        reveal_strlit("back slash");
        reveal_strlit("back tick");
        reveal_with_fuel(name_lt, 7);
    }
    assert(name_lt(english_symbol_index()[8].0, english_symbol_index()[9].0)) by {
        assert(english_symbol_index()[8].0 == "back tick"@);
        assert(english_symbol_index()[9].0 == "backslash"@);
        reveal_strlit("back tick");
        reveal_strlit("backslash");
        reveal_with_fuel(name_lt, 6);
    }
    assert(name_lt(english_symbol_index()[9].0, english_symbol_index()[10].0)) by {
        assert(english_symbol_index()[9].0 == "backslash"@);
        assert(english_symbol_index()[10].0 == "backtick"@);
        reveal_strlit("backslash");
        reveal_strlit("backtick");
        reveal_with_fuel(name_lt, 6);
    }
    assert(name_lt(english_symbol_index()[10].0, english_symbol_index()[11].0)) by {
        assert(english_symbol_index()[10].0 == "backtick"@);
        assert(english_symbol_index()[11].0 == "caret"@);
        reveal_strlit("backtick");
        reveal_strlit("caret");
        reveal_with_fuel(name_lt, 2);
    }
    assert(name_lt(english_symbol_index()[11].0, english_symbol_index()[12].0)) by {
        assert(english_symbol_index()[11].0 == "caret"@);
        assert(english_symbol_index()[12].0 == "circumflex"@);
        reveal_strlit("caret");
        reveal_strlit("circumflex");
        reveal_with_fuel(name_lt, 3);
    }
    assert(name_lt(english_symbol_index()[12].0, english_symbol_index()[13].0)) by {
        assert(english_symbol_index()[12].0 == "circumflex"@);
        assert(english_symbol_index()[13].0 == "close angle bracket"@);
        reveal_strlit("circumflex");
        reveal_strlit("close angle bracket");
        reveal_with_fuel(name_lt, 3);
    }
    assert(name_lt(english_symbol_index()[13].0, english_symbol_index()[14].0)) by {
        assert(english_symbol_index()[13].0 == "close angle bracket"@);
        assert(english_symbol_index()[14].0 == "close brace"@);
        reveal_strlit("close angle bracket");
        reveal_strlit("close brace");
        reveal_with_fuel(name_lt, 8);
    }
    assert(name_lt(english_symbol_index()[14].0, english_symbol_index()[15].0)) by {
        assert(english_symbol_index()[14].0 == "close brace"@);
        assert(english_symbol_index()[15].0 == "close bracket"@);
        reveal_strlit("close brace");
        reveal_strlit("close bracket");
        reveal_with_fuel(name_lt, 12);
    }
    assert(name_lt(english_symbol_index()[15].0, english_symbol_index()[16].0)) by {
        assert(english_symbol_index()[15].0 == "close bracket"@);
        assert(english_symbol_index()[16].0 == "close curly brace"@);
        reveal_strlit("close bracket");
        reveal_strlit("close curly brace");
        reveal_with_fuel(name_lt, 8);
    }
    assert(name_lt(english_symbol_index()[16].0, english_symbol_index()[17].0)) by {
        assert(english_symbol_index()[16].0 == "close curly brace"@);
        assert(english_symbol_index()[17].0 == "close paren"@);
        reveal_strlit("close curly brace");
        reveal_strlit("close paren");
        reveal_with_fuel(name_lt, 8);
    }
    assert(name_lt(english_symbol_index()[17].0, english_symbol_index()[18].0)) by {
        assert(english_symbol_index()[17].0 == "close paren"@);
        assert(english_symbol_index()[18].0 == "close parenthesis"@);
        reveal_strlit("close paren");
        reveal_strlit("close parenthesis");
        reveal_with_fuel(name_lt, 13);
    }
    assert(name_lt(english_symbol_index()[18].0, english_symbol_index()[19].0)) by {
        assert(english_symbol_index()[18].0 == "close parenthesis"@);
        assert(english_symbol_index()[19].0 == "close square bracket"@);
        reveal_strlit("close parenthesis");
        reveal_strlit("close square bracket");
        reveal_with_fuel(name_lt, 8);
    }
    assert(name_lt(english_symbol_index()[19].0, english_symbol_index()[20].0)) by {
        assert(english_symbol_index()[19].0 == "close square bracket"@);
        assert(english_symbol_index()[20].0 == "closing brace"@);
        reveal_strlit("close square bracket");
        reveal_strlit("closing brace");
        reveal_with_fuel(name_lt, 6);
    }
    assert(name_lt(english_symbol_index()[20].0, english_symbol_index()[21].0)) by {
        assert(english_symbol_index()[20].0 == "closing brace"@);
        assert(english_symbol_index()[21].0 == "closing bracket"@);
        reveal_strlit("closing brace");
        reveal_strlit("closing bracket");
        reveal_with_fuel(name_lt, 14);
    }
    assert(name_lt(english_symbol_index()[21].0, english_symbol_index()[22].0)) by {
        assert(english_symbol_index()[21].0 == "closing bracket"@);
        assert(english_symbol_index()[22].0 == "closing parenthesis"@);
        reveal_strlit("closing bracket");
        reveal_strlit("closing parenthesis");
        reveal_with_fuel(name_lt, 10);
    }
    assert(name_lt(english_symbol_index()[22].0, english_symbol_index()[23].0)) by {
        assert(english_symbol_index()[22].0 == "closing parenthesis"@);
        assert(english_symbol_index()[23].0 == "colon"@);
        reveal_strlit("closing parenthesis");
        reveal_strlit("colon");
        reveal_with_fuel(name_lt, 3);
    }
    assert(name_lt(english_symbol_index()[23].0, english_symbol_index()[24].0)) by {
        assert(english_symbol_index()[23].0 == "colon"@);
        assert(english_symbol_index()[24].0 == "comma"@);
        reveal_strlit("colon");
        reveal_strlit("comma");
        reveal_with_fuel(name_lt, 4);
    }
    assert(name_lt(english_symbol_index()[24].0, english_symbol_index()[25].0)) by {
        assert(english_symbol_index()[24].0 == "comma"@);
        assert(english_symbol_index()[25].0 == "dash"@);
        reveal_strlit("comma");
        reveal_strlit("dash");
        reveal_with_fuel(name_lt, 2);
    }
    assert(name_lt(english_symbol_index()[25].0, english_symbol_index()[26].0)) by {
        assert(english_symbol_index()[25].0 == "dash"@);
        assert(english_symbol_index()[26].0 == "dollar"@);
        reveal_strlit("dash");
        reveal_strlit("dollar");
        reveal_with_fuel(name_lt, 3);
    }
    assert(name_lt(english_symbol_index()[26].0, english_symbol_index()[27].0)) by {
        assert(english_symbol_index()[26].0 == "dollar"@);
        assert(english_symbol_index()[27].0 == "dollar sign"@);
        reveal_strlit("dollar");
        reveal_strlit("dollar sign");
        reveal_with_fuel(name_lt, 8);
    }
    assert(name_lt(english_symbol_index()[27].0, english_symbol_index()[28].0)) by {
        assert(english_symbol_index()[27].0 == "dollar sign"@);
        assert(english_symbol_index()[28].0 == "dot"@);
        reveal_strlit("dollar sign");
        reveal_strlit("dot");
        reveal_with_fuel(name_lt, 4);
    }
    assert(name_lt(english_symbol_index()[28].0, english_symbol_index()[29].0)) by {
        assert(english_symbol_index()[28].0 == "dot"@);
        assert(english_symbol_index()[29].0 == "double quote"@);
        reveal_strlit("dot");
        reveal_strlit("double quote");
        reveal_with_fuel(name_lt, 4);
    }
    assert(name_lt(english_symbol_index()[29].0, english_symbol_index()[30].0)) by {
        assert(english_symbol_index()[29].0 == "double quote"@);
        assert(english_symbol_index()[30].0 == "equal"@);
        reveal_strlit("double quote");
        reveal_strlit("equal");
        reveal_with_fuel(name_lt, 2);
    }
    assert(name_lt(english_symbol_index()[30].0, english_symbol_index()[31].0)) by {
        assert(english_symbol_index()[30].0 == "equal"@);
        assert(english_symbol_index()[31].0 == "equal sign"@);
        reveal_strlit("equal");
        reveal_strlit("equal sign");
        reveal_with_fuel(name_lt, 7);
    }
    assert(name_lt(english_symbol_index()[31].0, english_symbol_index()[32].0)) by {
        assert(english_symbol_index()[31].0 == "equal sign"@);
        assert(english_symbol_index()[32].0 == "equals"@);
        reveal_strlit("equal sign");
        reveal_strlit("equals");
        reveal_with_fuel(name_lt, 7);
    }
    assert(name_lt(english_symbol_index()[32].0, english_symbol_index()[33].0)) by {
        assert(english_symbol_index()[32].0 == "equals"@);
        assert(english_symbol_index()[33].0 == "equals sign"@);
        reveal_strlit("equals");
        reveal_strlit("equals sign");
        reveal_with_fuel(name_lt, 8);
    }
    assert(name_lt(english_symbol_index()[33].0, english_symbol_index()[34].0)) by {
        assert(english_symbol_index()[33].0 == "equals sign"@);
        assert(english_symbol_index()[34].0 == "exclamation"@);
        reveal_strlit("equals sign");
        reveal_strlit("exclamation");
        reveal_with_fuel(name_lt, 3);
    }
    assert(name_lt(english_symbol_index()[34].0, english_symbol_index()[35].0)) by {
        assert(english_symbol_index()[34].0 == "exclamation"@);
        assert(english_symbol_index()[35].0 == "exclamation mark"@);
        reveal_strlit("exclamation");
        reveal_strlit("exclamation mark");
        reveal_with_fuel(name_lt, 13);
    }
    assert(name_lt(english_symbol_index()[35].0, english_symbol_index()[36].0)) by {
        assert(english_symbol_index()[35].0 == "exclamation mark"@);
        assert(english_symbol_index()[36].0 == "exclamation point"@);
        reveal_strlit("exclamation mark");
        reveal_strlit("exclamation point");
        reveal_with_fuel(name_lt, 14);
    }
    assert(name_lt(english_symbol_index()[36].0, english_symbol_index()[37].0)) by {
        assert(english_symbol_index()[36].0 == "exclamation point"@);
        assert(english_symbol_index()[37].0 == "forward slash"@);
        reveal_strlit("exclamation point");
        reveal_strlit("forward slash");
        reveal_with_fuel(name_lt, 2);
    }
    assert(name_lt(english_symbol_index()[37].0, english_symbol_index()[38].0)) by {
        assert(english_symbol_index()[37].0 == "forward slash"@);
        assert(english_symbol_index()[38].0 == "full stop"@);
        reveal_strlit("forward slash");
        reveal_strlit("full stop");
        reveal_with_fuel(name_lt, 3);
    }
    assert(name_lt(english_symbol_index()[38].0, english_symbol_index()[39].0)) by {
        assert(english_symbol_index()[38].0 == "full stop"@);
        assert(english_symbol_index()[39].0 == "grave"@);
        reveal_strlit("full stop");
        reveal_strlit("grave");
        reveal_with_fuel(name_lt, 2);
    }
    assert(name_lt(english_symbol_index()[39].0, english_symbol_index()[40].0)) by {
        assert(english_symbol_index()[39].0 == "grave"@);
        assert(english_symbol_index()[40].0 == "grave accent"@);
        reveal_strlit("grave");
        reveal_strlit("grave accent");
        reveal_with_fuel(name_lt, 7);
    }
    assert(name_lt(english_symbol_index()[40].0, english_symbol_index()[41].0)) by {
        assert(english_symbol_index()[40].0 == "grave accent"@);
        assert(english_symbol_index()[41].0 == "greater than"@);
        reveal_strlit("grave accent");
        reveal_strlit("greater than");
        reveal_with_fuel(name_lt, 4);
    }
    assert(name_lt(english_symbol_index()[41].0, english_symbol_index()[42].0)) by {
        assert(english_symbol_index()[41].0 == "greater than"@);
        assert(english_symbol_index()[42].0 == "greater than sign"@);
        reveal_strlit("greater than");
        reveal_strlit("greater than sign");
        reveal_with_fuel(name_lt, 14);
    }
    assert(name_lt(english_symbol_index()[42].0, english_symbol_index()[43].0)) by {
        assert(english_symbol_index()[42].0 == "greater than sign"@);
        assert(english_symbol_index()[43].0 == "hash"@);
        reveal_strlit("greater than sign");
        reveal_strlit("hash");
        reveal_with_fuel(name_lt, 2);
    }
    assert(name_lt(english_symbol_index()[43].0, english_symbol_index()[44].0)) by {
        assert(english_symbol_index()[43].0 == "hash"@);
        assert(english_symbol_index()[44].0 == "hash tag"@);
        reveal_strlit("hash");
        reveal_strlit("hash tag");
        reveal_with_fuel(name_lt, 6);
    }
    assert(name_lt(english_symbol_index()[44].0, english_symbol_index()[45].0)) by {
        assert(english_symbol_index()[44].0 == "hash tag"@);
        assert(english_symbol_index()[45].0 == "hashtag"@);
        reveal_strlit("hash tag");
        reveal_strlit("hashtag");
        reveal_with_fuel(name_lt, 6);
    }
    assert(name_lt(english_symbol_index()[45].0, english_symbol_index()[46].0)) by {
        assert(english_symbol_index()[45].0 == "hashtag"@);
        assert(english_symbol_index()[46].0 == "hat"@);
        reveal_strlit("hashtag");
        reveal_strlit("hat");
        reveal_with_fuel(name_lt, 4);
    }
    assert(name_lt(english_symbol_index()[46].0, english_symbol_index()[47].0)) by {
        assert(english_symbol_index()[46].0 == "hat"@);
        assert(english_symbol_index()[47].0 == "hyphen"@);
        reveal_strlit("hat");
        reveal_strlit("hyphen");
        reveal_with_fuel(name_lt, 3);
    }
    assert(name_lt(english_symbol_index()[47].0, english_symbol_index()[48].0)) by {
        assert(english_symbol_index()[47].0 == "hyphen"@);
        assert(english_symbol_index()[48].0 == "left angle bracket"@);
        reveal_strlit("hyphen");
        reveal_strlit("left angle bracket");
        reveal_with_fuel(name_lt, 2);
    }
    assert(name_lt(english_symbol_index()[48].0, english_symbol_index()[49].0)) by {
        assert(english_symbol_index()[48].0 == "left angle bracket"@);
        assert(english_symbol_index()[49].0 == "left brace"@);
        reveal_strlit("left angle bracket");
        reveal_strlit("left brace");
        reveal_with_fuel(name_lt, 7);
    }
    assert(name_lt(english_symbol_index()[49].0, english_symbol_index()[50].0)) by {
        assert(english_symbol_index()[49].0 == "left brace"@);
        assert(english_symbol_index()[50].0 == "left bracket"@);
        reveal_strlit("left brace");
        reveal_strlit("left bracket");
        reveal_with_fuel(name_lt, 11);
    }
    assert(name_lt(english_symbol_index()[50].0, english_symbol_index()[51].0)) by {
        assert(english_symbol_index()[50].0 == "left bracket"@);
        assert(english_symbol_index()[51].0 == "left curly brace"@);
        reveal_strlit("left bracket");
        reveal_strlit("left curly brace");
        reveal_with_fuel(name_lt, 7);
    }
    assert(name_lt(english_symbol_index()[51].0, english_symbol_index()[52].0)) by {
        assert(english_symbol_index()[51].0 == "left curly brace"@);
        assert(english_symbol_index()[52].0 == "left paren"@);
        reveal_strlit("left curly brace");
        reveal_strlit("left paren");
        reveal_with_fuel(name_lt, 7);
    }
    assert(name_lt(english_symbol_index()[52].0, english_symbol_index()[53].0)) by {
        assert(english_symbol_index()[52].0 == "left paren"@);
        assert(english_symbol_index()[53].0 == "left parenthesis"@);
        reveal_strlit("left paren");
        reveal_strlit("left parenthesis");
        reveal_with_fuel(name_lt, 12);
    }
    assert(name_lt(english_symbol_index()[53].0, english_symbol_index()[54].0)) by {
        assert(english_symbol_index()[53].0 == "left parenthesis"@);
        assert(english_symbol_index()[54].0 == "left square bracket"@);
        reveal_strlit("left parenthesis");
        reveal_strlit("left square bracket");
        reveal_with_fuel(name_lt, 7);
    }
    assert(name_lt(english_symbol_index()[54].0, english_symbol_index()[55].0)) by {
        assert(english_symbol_index()[54].0 == "left square bracket"@);
        assert(english_symbol_index()[55].0 == "less than"@);
        reveal_strlit("left square bracket");
        reveal_strlit("less than");
        reveal_with_fuel(name_lt, 4);
    }
    assert(name_lt(english_symbol_index()[55].0, english_symbol_index()[56].0)) by {
        assert(english_symbol_index()[55].0 == "less than"@);
        assert(english_symbol_index()[56].0 == "less than sign"@);
        reveal_strlit("less than");
        reveal_strlit("less than sign");
        reveal_with_fuel(name_lt, 11);
    }
    assert(name_lt(english_symbol_index()[56].0, english_symbol_index()[57].0)) by {
        assert(english_symbol_index()[56].0 == "less than sign"@);
        assert(english_symbol_index()[57].0 == "minus"@);
        reveal_strlit("less than sign");
        reveal_strlit("minus");
        reveal_with_fuel(name_lt, 2);
    }
    assert(name_lt(english_symbol_index()[57].0, english_symbol_index()[58].0)) by {
        assert(english_symbol_index()[57].0 == "minus"@);
        assert(english_symbol_index()[58].0 == "number sign"@);
        reveal_strlit("minus");
        reveal_strlit("number sign");
        reveal_with_fuel(name_lt, 2);
    }
    assert(name_lt(english_symbol_index()[58].0, english_symbol_index()[59].0)) by {
        assert(english_symbol_index()[58].0 == "number sign"@);
        assert(english_symbol_index()[59].0 == "open angle bracket"@);
        reveal_strlit("number sign");
        reveal_strlit("open angle bracket");
        reveal_with_fuel(name_lt, 2);
    }
    assert(name_lt(english_symbol_index()[59].0, english_symbol_index()[60].0)) by {
        assert(english_symbol_index()[59].0 == "open angle bracket"@);
        assert(english_symbol_index()[60].0 == "open brace"@);
        reveal_strlit("open angle bracket");
        reveal_strlit("open brace");
        reveal_with_fuel(name_lt, 7);
    }
    assert(name_lt(english_symbol_index()[60].0, english_symbol_index()[61].0)) by {
        assert(english_symbol_index()[60].0 == "open brace"@);
        assert(english_symbol_index()[61].0 == "open bracket"@);
        reveal_strlit("open brace");
        reveal_strlit("open bracket");
        reveal_with_fuel(name_lt, 11);
    }
    assert(name_lt(english_symbol_index()[61].0, english_symbol_index()[62].0)) by {
        assert(english_symbol_index()[61].0 == "open bracket"@);
        assert(english_symbol_index()[62].0 == "open curly brace"@);
        reveal_strlit("open bracket");
        reveal_strlit("open curly brace");
        reveal_with_fuel(name_lt, 7);
    }
    assert(name_lt(english_symbol_index()[62].0, english_symbol_index()[63].0)) by {
        assert(english_symbol_index()[62].0 == "open curly brace"@);
        assert(english_symbol_index()[63].0 == "open paren"@);
        reveal_strlit("open curly brace");
        reveal_strlit("open paren");
        reveal_with_fuel(name_lt, 7);
    }
    assert(name_lt(english_symbol_index()[63].0, english_symbol_index()[64].0)) by {
        assert(english_symbol_index()[63].0 == "open paren"@);
        assert(english_symbol_index()[64].0 == "open parenthesis"@);
        reveal_strlit("open paren");
        reveal_strlit("open parenthesis");
        reveal_with_fuel(name_lt, 12);
    }
    assert(name_lt(english_symbol_index()[64].0, english_symbol_index()[65].0)) by {
        assert(english_symbol_index()[64].0 == "open parenthesis"@);
        assert(english_symbol_index()[65].0 == "open square bracket"@);
        reveal_strlit("open parenthesis");
        reveal_strlit("open square bracket");
        reveal_with_fuel(name_lt, 7);
    }
    assert(name_lt(english_symbol_index()[65].0, english_symbol_index()[66].0)) by {
        assert(english_symbol_index()[65].0 == "open square bracket"@);
        assert(english_symbol_index()[66].0 == "opening brace"@);
        reveal_strlit("open square bracket");
        reveal_strlit("opening brace");
        reveal_with_fuel(name_lt, 6);
    }
    assert(name_lt(english_symbol_index()[66].0, english_symbol_index()[67].0)) by {
        assert(english_symbol_index()[66].0 == "opening brace"@);
        assert(english_symbol_index()[67].0 == "opening bracket"@);
        reveal_strlit("opening brace");
        reveal_strlit("opening bracket");
        reveal_with_fuel(name_lt, 14);
    }
    assert(name_lt(english_symbol_index()[67].0, english_symbol_index()[68].0)) by {
        assert(english_symbol_index()[67].0 == "opening bracket"@);
        assert(english_symbol_index()[68].0 == "opening parenthesis"@);
        reveal_strlit("opening bracket");
        reveal_strlit("opening parenthesis");
        reveal_with_fuel(name_lt, 10);
    }
    assert(name_lt(english_symbol_index()[68].0, english_symbol_index()[69].0)) by {
        assert(english_symbol_index()[68].0 == "opening parenthesis"@);
        assert(english_symbol_index()[69].0 == "percent"@);
        reveal_strlit("opening parenthesis");
        reveal_strlit("percent");
        reveal_with_fuel(name_lt, 2);
    }
    assert(name_lt(english_symbol_index()[69].0, english_symbol_index()[70].0)) by {
        assert(english_symbol_index()[69].0 == "percent"@);
        assert(english_symbol_index()[70].0 == "percent sign"@);
        reveal_strlit("percent");
        reveal_strlit("percent sign");
        reveal_with_fuel(name_lt, 9);
    }
    assert(name_lt(english_symbol_index()[70].0, english_symbol_index()[71].0)) by {
        assert(english_symbol_index()[70].0 == "percent sign"@);
        assert(english_symbol_index()[71].0 == "period"@);
        reveal_strlit("percent sign");
        reveal_strlit("period");
        reveal_with_fuel(name_lt, 5);
    }
    assert(name_lt(english_symbol_index()[71].0, english_symbol_index()[72].0)) by {
        assert(english_symbol_index()[71].0 == "period"@);
        assert(english_symbol_index()[72].0 == "pipe"@);
        reveal_strlit("period");
        reveal_strlit("pipe");
        reveal_with_fuel(name_lt, 3);
    }
    assert(name_lt(english_symbol_index()[72].0, english_symbol_index()[73].0)) by {
        assert(english_symbol_index()[72].0 == "pipe"@);
        assert(english_symbol_index()[73].0 == "plus"@);
        reveal_strlit("pipe");
        reveal_strlit("plus");
        reveal_with_fuel(name_lt, 3);
    }
    assert(name_lt(english_symbol_index()[73].0, english_symbol_index()[74].0)) by {
        assert(english_symbol_index()[73].0 == "plus"@);
        assert(english_symbol_index()[74].0 == "plus sign"@);
        reveal_strlit("plus");
        reveal_strlit("plus sign");
        reveal_with_fuel(name_lt, 6);
    }
    assert(name_lt(english_symbol_index()[74].0, english_symbol_index()[75].0)) by {
        assert(english_symbol_index()[74].0 == "plus sign"@);
        assert(english_symbol_index()[75].0 == "point"@);
        reveal_strlit("plus sign");
        reveal_strlit("point");
        reveal_with_fuel(name_lt, 3);
    }
    assert(name_lt(english_symbol_index()[75].0, english_symbol_index()[76].0)) by {
        assert(english_symbol_index()[75].0 == "point"@);
        assert(english_symbol_index()[76].0 == "pound sign"@);
        reveal_strlit("point");
        reveal_strlit("pound sign");
        reveal_with_fuel(name_lt, 4);
    }
    assert(name_lt(english_symbol_index()[76].0, english_symbol_index()[77].0)) by {
        assert(english_symbol_index()[76].0 == "pound sign"@);
        assert(english_symbol_index()[77].0 == "question mark"@);
        reveal_strlit("pound sign");
        reveal_strlit("question mark");
        reveal_with_fuel(name_lt, 2);
    }
    assert(name_lt(english_symbol_index()[77].0, english_symbol_index()[78].0)) by {
        assert(english_symbol_index()[77].0 == "question mark"@);
        assert(english_symbol_index()[78].0 == "quotation mark"@);
        reveal_strlit("question mark");
        reveal_strlit("quotation mark");
        reveal_with_fuel(name_lt, 4);
    }
    assert(name_lt(english_symbol_index()[78].0, english_symbol_index()[79].0)) by {
        assert(english_symbol_index()[78].0 == "quotation mark"@);
        assert(english_symbol_index()[79].0 == "quote"@);
        reveal_strlit("quotation mark");
        reveal_strlit("quote");
        reveal_with_fuel(name_lt, 6);
    }
    assert(name_lt(english_symbol_index()[79].0, english_symbol_index()[80].0)) by {
        assert(english_symbol_index()[79].0 == "quote"@);
        assert(english_symbol_index()[80].0 == "right angle bracket"@);
        reveal_strlit("quote");
        reveal_strlit("right angle bracket");
        reveal_with_fuel(name_lt, 2);
    }
    assert(name_lt(english_symbol_index()[80].0, english_symbol_index()[81].0)) by {
        assert(english_symbol_index()[80].0 == "right angle bracket"@);
        assert(english_symbol_index()[81].0 == "right brace"@);
        reveal_strlit("right angle bracket");
        reveal_strlit("right brace");
        reveal_with_fuel(name_lt, 8);
    }
    assert(name_lt(english_symbol_index()[81].0, english_symbol_index()[82].0)) by {
        assert(english_symbol_index()[81].0 == "right brace"@);
        assert(english_symbol_index()[82].0 == "right bracket"@);
        reveal_strlit("right brace");
        reveal_strlit("right bracket");
        reveal_with_fuel(name_lt, 12);
    }
    assert(name_lt(english_symbol_index()[82].0, english_symbol_index()[83].0)) by {
        assert(english_symbol_index()[82].0 == "right bracket"@);
        assert(english_symbol_index()[83].0 == "right curly brace"@);
        reveal_strlit("right bracket");
        reveal_strlit("right curly brace");
        reveal_with_fuel(name_lt, 8);
    }
    assert(name_lt(english_symbol_index()[83].0, english_symbol_index()[84].0)) by {
        assert(english_symbol_index()[83].0 == "right curly brace"@);
        assert(english_symbol_index()[84].0 == "right paren"@);
        reveal_strlit("right curly brace");
        reveal_strlit("right paren");
        reveal_with_fuel(name_lt, 8);
    }
    assert(name_lt(english_symbol_index()[84].0, english_symbol_index()[85].0)) by {
        assert(english_symbol_index()[84].0 == "right paren"@);
        assert(english_symbol_index()[85].0 == "right parenthesis"@);
        reveal_strlit("right paren");
        reveal_strlit("right parenthesis");
        reveal_with_fuel(name_lt, 13);
    }
    assert(name_lt(english_symbol_index()[85].0, english_symbol_index()[86].0)) by {
        assert(english_symbol_index()[85].0 == "right parenthesis"@);
        assert(english_symbol_index()[86].0 == "right square bracket"@);
        reveal_strlit("right parenthesis");
        reveal_strlit("right square bracket");
        reveal_with_fuel(name_lt, 8);
    }
    assert(name_lt(english_symbol_index()[86].0, english_symbol_index()[87].0)) by {
        assert(english_symbol_index()[86].0 == "right square bracket"@);
        assert(english_symbol_index()[87].0 == "semicolon"@);
        reveal_strlit("right square bracket");
        reveal_strlit("semicolon");
        reveal_with_fuel(name_lt, 2);
    }
    assert(name_lt(english_symbol_index()[87].0, english_symbol_index()[88].0)) by {
        assert(english_symbol_index()[87].0 == "semicolon"@);
        assert(english_symbol_index()[88].0 == "single quote"@);
        reveal_strlit("semicolon");
        reveal_strlit("single quote");
        reveal_with_fuel(name_lt, 3);
    }
    assert(name_lt(english_symbol_index()[88].0, english_symbol_index()[89].0)) by {
        assert(english_symbol_index()[88].0 == "single quote"@);
        assert(english_symbol_index()[89].0 == "slash"@);
        reveal_strlit("single quote");
        reveal_strlit("slash");
        reveal_with_fuel(name_lt, 3);
    }
    assert(name_lt(english_symbol_index()[89].0, english_symbol_index()[90].0)) by {
        assert(english_symbol_index()[89].0 == "slash"@);
        assert(english_symbol_index()[90].0 == "star"@);
        reveal_strlit("slash");
        reveal_strlit("star");
        reveal_with_fuel(name_lt, 3);
    }
    assert(name_lt(english_symbol_index()[90].0, english_symbol_index()[91].0)) by {
        assert(english_symbol_index()[90].0 == "star"@);
        assert(english_symbol_index()[91].0 == "tilde"@);
        reveal_strlit("star");
        reveal_strlit("tilde");
        reveal_with_fuel(name_lt, 2);
    }
    assert(name_lt(english_symbol_index()[91].0, english_symbol_index()[92].0)) by {
        assert(english_symbol_index()[91].0 == "tilde"@);
        assert(english_symbol_index()[92].0 == "underscore"@);
        reveal_strlit("tilde");
        reveal_strlit("underscore");
        reveal_with_fuel(name_lt, 2);
    }
    assert(name_lt(english_symbol_index()[92].0, english_symbol_index()[93].0)) by {
        assert(english_symbol_index()[92].0 == "underscore"@);
        assert(english_symbol_index()[93].0 == "vertical bar"@);
        reveal_strlit("underscore");
        reveal_strlit("vertical bar");
        reveal_with_fuel(name_lt, 2);
    }
    assert(name_lt(english_symbol_index()[93].0, english_symbol_index()[94].0)) by {
        assert(english_symbol_index()[93].0 == "vertical bar"@);
        assert(english_symbol_index()[94].0 == "vertical line"@);
        reveal_strlit("vertical bar");
        reveal_strlit("vertical line");
        reveal_with_fuel(name_lt, 11);
    }
    assert forall|a: int| 0 <= a < english_symbol_index().len() - 1 implies name_lt(
        #[trigger] english_symbol_index()[a].0,
        english_symbol_index()[a + 1].0,
    ) by {
        if a == 0 {
            assert(name_lt(english_symbol_index()[0].0, english_symbol_index()[1].0));
        }
        if a == 1 {
            assert(name_lt(english_symbol_index()[1].0, english_symbol_index()[2].0));
        }
        if a == 2 {
            assert(name_lt(english_symbol_index()[2].0, english_symbol_index()[3].0));
        }
        if a == 3 {
            assert(name_lt(english_symbol_index()[3].0, english_symbol_index()[4].0));
        }
        if a == 4 {
            assert(name_lt(english_symbol_index()[4].0, english_symbol_index()[5].0));
        }
        if a == 5 {
            assert(name_lt(english_symbol_index()[5].0, english_symbol_index()[6].0));
        }
        if a == 6 {
            assert(name_lt(english_symbol_index()[6].0, english_symbol_index()[7].0));
        }
        if a == 7 {
            assert(name_lt(english_symbol_index()[7].0, english_symbol_index()[8].0));
        }
        if a == 8 {
            assert(name_lt(english_symbol_index()[8].0, english_symbol_index()[9].0));
        }
        if a == 9 {
            assert(name_lt(english_symbol_index()[9].0, english_symbol_index()[10].0));
        }
        if a == 10 {
            assert(name_lt(english_symbol_index()[10].0, english_symbol_index()[11].0));
        }
        if a == 11 {
            assert(name_lt(english_symbol_index()[11].0, english_symbol_index()[12].0));
        }
        if a == 12 {
            assert(name_lt(english_symbol_index()[12].0, english_symbol_index()[13].0));
        }
        if a == 13 {
            assert(name_lt(english_symbol_index()[13].0, english_symbol_index()[14].0));
        }
        if a == 14 {
            assert(name_lt(english_symbol_index()[14].0, english_symbol_index()[15].0));
        }
        if a == 15 {
            assert(name_lt(english_symbol_index()[15].0, english_symbol_index()[16].0));
        }
        if a == 16 {
            assert(name_lt(english_symbol_index()[16].0, english_symbol_index()[17].0));
        }
        if a == 17 {
            assert(name_lt(english_symbol_index()[17].0, english_symbol_index()[18].0));
        }
        if a == 18 {
            assert(name_lt(english_symbol_index()[18].0, english_symbol_index()[19].0));
        }
        if a == 19 {
            assert(name_lt(english_symbol_index()[19].0, english_symbol_index()[20].0));
        }
        if a == 20 {
            assert(name_lt(english_symbol_index()[20].0, english_symbol_index()[21].0));
        }
        if a == 21 {
            assert(name_lt(english_symbol_index()[21].0, english_symbol_index()[22].0));
        }
        if a == 22 {
            assert(name_lt(english_symbol_index()[22].0, english_symbol_index()[23].0));
        }
        if a == 23 {
            assert(name_lt(english_symbol_index()[23].0, english_symbol_index()[24].0));
        }
        if a == 24 {
            assert(name_lt(english_symbol_index()[24].0, english_symbol_index()[25].0));
        }
        if a == 25 {
            assert(name_lt(english_symbol_index()[25].0, english_symbol_index()[26].0));
        }
        if a == 26 {
            assert(name_lt(english_symbol_index()[26].0, english_symbol_index()[27].0));
        }
        if a == 27 {
            assert(name_lt(english_symbol_index()[27].0, english_symbol_index()[28].0));
        }
        if a == 28 {
            assert(name_lt(english_symbol_index()[28].0, english_symbol_index()[29].0));
        }
        if a == 29 {
            assert(name_lt(english_symbol_index()[29].0, english_symbol_index()[30].0));
        }
        if a == 30 {
            assert(name_lt(english_symbol_index()[30].0, english_symbol_index()[31].0));
        }
        if a == 31 {
            assert(name_lt(english_symbol_index()[31].0, english_symbol_index()[32].0));
        }
        if a == 32 {
            assert(name_lt(english_symbol_index()[32].0, english_symbol_index()[33].0));
        }
        if a == 33 {
            assert(name_lt(english_symbol_index()[33].0, english_symbol_index()[34].0));
        }
        if a == 34 {
            assert(name_lt(english_symbol_index()[34].0, english_symbol_index()[35].0));
        }
        if a == 35 {
            assert(name_lt(english_symbol_index()[35].0, english_symbol_index()[36].0));
        }
        if a == 36 {
            assert(name_lt(english_symbol_index()[36].0, english_symbol_index()[37].0));
        }
        if a == 37 {
            assert(name_lt(english_symbol_index()[37].0, english_symbol_index()[38].0));
        }
        if a == 38 {
            assert(name_lt(english_symbol_index()[38].0, english_symbol_index()[39].0));
        }
        if a == 39 {
            assert(name_lt(english_symbol_index()[39].0, english_symbol_index()[40].0));
        }
        if a == 40 {
            assert(name_lt(english_symbol_index()[40].0, english_symbol_index()[41].0));
        }
        if a == 41 {
            assert(name_lt(english_symbol_index()[41].0, english_symbol_index()[42].0));
        }
        if a == 42 {
            assert(name_lt(english_symbol_index()[42].0, english_symbol_index()[43].0));
        }
        if a == 43 {
            assert(name_lt(english_symbol_index()[43].0, english_symbol_index()[44].0));
        }
        if a == 44 {
            assert(name_lt(english_symbol_index()[44].0, english_symbol_index()[45].0));
        }
        if a == 45 {
            assert(name_lt(english_symbol_index()[45].0, english_symbol_index()[46].0));
        }
        if a == 46 {
            assert(name_lt(english_symbol_index()[46].0, english_symbol_index()[47].0));
        }
        if a == 47 {
            assert(name_lt(english_symbol_index()[47].0, english_symbol_index()[48].0));
        }
        if a == 48 {
            assert(name_lt(english_symbol_index()[48].0, english_symbol_index()[49].0));
        }
        if a == 49 {
            assert(name_lt(english_symbol_index()[49].0, english_symbol_index()[50].0));
        }
        if a == 50 {
            assert(name_lt(english_symbol_index()[50].0, english_symbol_index()[51].0));
        }
        if a == 51 {
            assert(name_lt(english_symbol_index()[51].0, english_symbol_index()[52].0));
        }
        if a == 52 {
            assert(name_lt(english_symbol_index()[52].0, english_symbol_index()[53].0));
        }
        if a == 53 {
            assert(name_lt(english_symbol_index()[53].0, english_symbol_index()[54].0));
        }
        if a == 54 {
            assert(name_lt(english_symbol_index()[54].0, english_symbol_index()[55].0));
        }
        if a == 55 {
            assert(name_lt(english_symbol_index()[55].0, english_symbol_index()[56].0));
        }
        if a == 56 {
            assert(name_lt(english_symbol_index()[56].0, english_symbol_index()[57].0));
        }
        if a == 57 {
            assert(name_lt(english_symbol_index()[57].0, english_symbol_index()[58].0));
        }
        if a == 58 {
            assert(name_lt(english_symbol_index()[58].0, english_symbol_index()[59].0));
        }
        if a == 59 {
            assert(name_lt(english_symbol_index()[59].0, english_symbol_index()[60].0));
        }
        if a == 60 {
            assert(name_lt(english_symbol_index()[60].0, english_symbol_index()[61].0));
        }
        if a == 61 {
            assert(name_lt(english_symbol_index()[61].0, english_symbol_index()[62].0));
        }
        if a == 62 {
            assert(name_lt(english_symbol_index()[62].0, english_symbol_index()[63].0));
        }
        if a == 63 {
            assert(name_lt(english_symbol_index()[63].0, english_symbol_index()[64].0));
        }
        if a == 64 {
            assert(name_lt(english_symbol_index()[64].0, english_symbol_index()[65].0));
        }
        if a == 65 {
            assert(name_lt(english_symbol_index()[65].0, english_symbol_index()[66].0));
        }
        if a == 66 {
            assert(name_lt(english_symbol_index()[66].0, english_symbol_index()[67].0));
        }
        if a == 67 {
            assert(name_lt(english_symbol_index()[67].0, english_symbol_index()[68].0));
        }
        if a == 68 {
            assert(name_lt(english_symbol_index()[68].0, english_symbol_index()[69].0));
        }
        if a == 69 {
            assert(name_lt(english_symbol_index()[69].0, english_symbol_index()[70].0));
        }
        if a == 70 {
            assert(name_lt(english_symbol_index()[70].0, english_symbol_index()[71].0));
        }
        if a == 71 {
            assert(name_lt(english_symbol_index()[71].0, english_symbol_index()[72].0));
        }
        if a == 72 {
            assert(name_lt(english_symbol_index()[72].0, english_symbol_index()[73].0));
        }
        if a == 73 {
            assert(name_lt(english_symbol_index()[73].0, english_symbol_index()[74].0));
        }
        if a == 74 {
            assert(name_lt(english_symbol_index()[74].0, english_symbol_index()[75].0));
        }
        if a == 75 {
            assert(name_lt(english_symbol_index()[75].0, english_symbol_index()[76].0));
        }
        if a == 76 {
            assert(name_lt(english_symbol_index()[76].0, english_symbol_index()[77].0));
        }
        if a == 77 {
            assert(name_lt(english_symbol_index()[77].0, english_symbol_index()[78].0));
        }
        if a == 78 {
            assert(name_lt(english_symbol_index()[78].0, english_symbol_index()[79].0));
        }
        if a == 79 {
            assert(name_lt(english_symbol_index()[79].0, english_symbol_index()[80].0));
        }
        if a == 80 {
            assert(name_lt(english_symbol_index()[80].0, english_symbol_index()[81].0));
        }
        if a == 81 {
            assert(name_lt(english_symbol_index()[81].0, english_symbol_index()[82].0));
        }
        if a == 82 {
            assert(name_lt(english_symbol_index()[82].0, english_symbol_index()[83].0));
        }
        if a == 83 {
            assert(name_lt(english_symbol_index()[83].0, english_symbol_index()[84].0));
        }
        if a == 84 {
            assert(name_lt(english_symbol_index()[84].0, english_symbol_index()[85].0));
        }
        if a == 85 {
            assert(name_lt(english_symbol_index()[85].0, english_symbol_index()[86].0));
        }
        if a == 86 {
            assert(name_lt(english_symbol_index()[86].0, english_symbol_index()[87].0));
        }
        if a == 87 {
            assert(name_lt(english_symbol_index()[87].0, english_symbol_index()[88].0));
        }
        if a == 88 {
            assert(name_lt(english_symbol_index()[88].0, english_symbol_index()[89].0));
        }
        if a == 89 {
            assert(name_lt(english_symbol_index()[89].0, english_symbol_index()[90].0));
        }
        if a == 90 {
            assert(name_lt(english_symbol_index()[90].0, english_symbol_index()[91].0));
        }
        if a == 91 {
            assert(name_lt(english_symbol_index()[91].0, english_symbol_index()[92].0));
        }
        if a == 92 {
            assert(name_lt(english_symbol_index()[92].0, english_symbol_index()[93].0));
        }
        if a == 93 {
            assert(name_lt(english_symbol_index()[93].0, english_symbol_index()[94].0));
        }
    }
}

/// The English symbol index is strictly increasing.
proof fn lemma_english_symbol_index_sorted(a: int, b: int)
    requires
        0 <= a < b < english_symbol_index().len(),
    ensures
        name_lt(english_symbol_index()[a].0, english_symbol_index()[b].0),
    decreases b - a,
{
    lemma_english_symbol_index_steps();
    assert(name_lt(english_symbol_index()[b - 1].0, english_symbol_index()[b].0));
    if a < b - 1 {
        lemma_english_symbol_index_sorted(a, b - 1);
        lemma_name_lt_transitive(
            english_symbol_index()[a].0,
            english_symbol_index()[b - 1].0,
            english_symbol_index()[b].0,
        );
    }
}

/// No phrase occurs twice in the English symbol table.
pub proof fn lemma_english_symbol_phrases_unique(k1: int, k2: int)
    requires
        0 <= k1 < ENGLISH_SYMBOLS@.len(),
        0 <= k2 < ENGLISH_SYMBOLS@.len(),
        k1 != k2,
    ensures
        ENGLISH_SYMBOLS@[k1].0@ != ENGLISH_SYMBOLS@[k2].0@,
{
    lemma_english_symbols_indexed();
    assert(english_indexed(k1));
    assert(english_indexed(k2));
    let g1 = choose|g: int| #[trigger] english_indexed_at(k1, g);
    let g2 = choose|g: int| #[trigger] english_indexed_at(k2, g);
    if ENGLISH_SYMBOLS@[k1].0@ == ENGLISH_SYMBOLS@[k2].0@ {
        if g1 < g2 {
            lemma_english_symbol_index_sorted(g1, g2);
            lemma_name_lt_irreflexive(english_symbol_index()[g1].0);
        } else if g2 < g1 {
            lemma_english_symbol_index_sorted(g2, g1);
            lemma_name_lt_irreflexive(english_symbol_index()[g2].0);
        }
    }
}

} // verus!
