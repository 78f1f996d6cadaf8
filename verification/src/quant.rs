//! Quantization type names of GGUF files (`general.file_type`).
use vstd::prelude::*;

verus! {

/// The quantization name of a `general.file_type` code (the numbering of
/// ggml's type enumeration); `None` for codes without a name.
pub open spec fn quant_name(file_type: u32) -> Option<Seq<char>> {
    match file_type {
        0 => Some("F32"@),
        1 => Some("F16"@),
        2 => Some("Q4_0"@),
        3 => Some("Q4_1"@),
        6 => Some("Q5_0"@),
        7 => Some("Q5_1"@),
        8 => Some("Q8_0"@),
        9 => Some("Q8_1"@),
        10 => Some("Q2_K"@),
        11 => Some("Q3_K_S"@),
        12 => Some("Q3_K_M"@),
        13 => Some("Q3_K_L"@),
        14 => Some("Q4_K_S"@),
        15 => Some("Q4_K_M"@),
        16 => Some("Q5_K_S"@),
        17 => Some("Q5_K_M"@),
        18 => Some("Q6_K"@),
        19 => Some("IQ2_XXS"@),
        20 => Some("IQ2_XS"@),
        21 => Some("Q2_K_S"@),
        22 => Some("IQ3_XS"@),
        23 => Some("IQ3_XXS"@),
        24 => Some("IQ1_S"@),
        25 => Some("IQ4_NL"@),
        26 => Some("IQ3_S"@),
        27 => Some("IQ3_M"@),
        28 => Some("IQ2_S"@),
        29 => Some("IQ2_M"@),
        30 => Some("IQ1_M"@),
        31 => Some("BF16"@),
        32 => Some("Q4_0_4_4"@),
        33 => Some("Q4_0_4_8"@),
        34 => Some("Q4_0_8_8"@),
        35 => Some("TQ1_0"@),
        36 => Some("TQ2_0"@),
        37 => Some("IQ4_XS"@),
        _ => None,
    }
}

/// The name of each `general.file_type` code, code by code: 0 is `F32`,
/// 15 `Q4_K_M`, 16 `Q5_K_S`, 17 `Q5_K_M`, ... 37 `IQ4_XS`; codes 4 and 5 and
/// every code past 37 have none.
pub proof fn quant_name_table(c: u32)
    ensures
        quant_name(0) == Some("F32"@),
        quant_name(1) == Some("F16"@),
        quant_name(2) == Some("Q4_0"@),
        quant_name(3) == Some("Q4_1"@),
        quant_name(6) == Some("Q5_0"@),
        quant_name(7) == Some("Q5_1"@),
        quant_name(8) == Some("Q8_0"@),
        quant_name(9) == Some("Q8_1"@),
        quant_name(10) == Some("Q2_K"@),
        quant_name(11) == Some("Q3_K_S"@),
        quant_name(12) == Some("Q3_K_M"@),
        quant_name(13) == Some("Q3_K_L"@),
        quant_name(14) == Some("Q4_K_S"@),
        quant_name(15) == Some("Q4_K_M"@),
        quant_name(16) == Some("Q5_K_S"@),
        quant_name(17) == Some("Q5_K_M"@),
        quant_name(18) == Some("Q6_K"@),
        quant_name(19) == Some("IQ2_XXS"@),
        quant_name(20) == Some("IQ2_XS"@),
        quant_name(21) == Some("Q2_K_S"@),
        quant_name(22) == Some("IQ3_XS"@),
        quant_name(23) == Some("IQ3_XXS"@),
        quant_name(24) == Some("IQ1_S"@),
        quant_name(25) == Some("IQ4_NL"@),
        quant_name(26) == Some("IQ3_S"@),
        quant_name(27) == Some("IQ3_M"@),
        quant_name(28) == Some("IQ2_S"@),
        quant_name(29) == Some("IQ2_M"@),
        quant_name(30) == Some("IQ1_M"@),
        quant_name(31) == Some("BF16"@),
        quant_name(32) == Some("Q4_0_4_4"@),
        quant_name(33) == Some("Q4_0_4_8"@),
        quant_name(34) == Some("Q4_0_8_8"@),
        quant_name(35) == Some("TQ1_0"@),
        quant_name(36) == Some("TQ2_0"@),
        quant_name(37) == Some("IQ4_XS"@),
        (c == 4 || c == 5 || c > 37) ==> quant_name(c) is None,
        (c <= 37 && c != 4 && c != 5) ==> quant_name(c) is Some,
{
}

/// The character of `s` at `i`, a space past its end.
pub open spec fn char_or_space(s: Seq<char>, i: int) -> char {
    if i < s.len() { s[i] } else { ' ' }
}

/// The length of a name and its first eight characters (spaces past its
/// end): every quantization name is at most eight characters long, so this
/// tells the names apart.
pub open spec fn name_shape(s: Seq<char>) -> (nat, char, char, char, char, char, char, char, char) {
    (s.len(), char_or_space(s, 0), char_or_space(s, 1), char_or_space(s, 2), char_or_space(s, 3),
        char_or_space(s, 4), char_or_space(s, 5), char_or_space(s, 6), char_or_space(s, 7))
}

/// The shape of the name of each named code.
pub open spec fn code_shape(file_type: u32) -> (nat, char, char, char, char, char, char, char, char) {
    match file_type {
        0 => (3nat, 'F', '3', '2', ' ', ' ', ' ', ' ', ' '),
        1 => (3nat, 'F', '1', '6', ' ', ' ', ' ', ' ', ' '),
        2 => (4nat, 'Q', '4', '_', '0', ' ', ' ', ' ', ' '),
        3 => (4nat, 'Q', '4', '_', '1', ' ', ' ', ' ', ' '),
        6 => (4nat, 'Q', '5', '_', '0', ' ', ' ', ' ', ' '),
        7 => (4nat, 'Q', '5', '_', '1', ' ', ' ', ' ', ' '),
        8 => (4nat, 'Q', '8', '_', '0', ' ', ' ', ' ', ' '),
        9 => (4nat, 'Q', '8', '_', '1', ' ', ' ', ' ', ' '),
        10 => (4nat, 'Q', '2', '_', 'K', ' ', ' ', ' ', ' '),
        11 => (6nat, 'Q', '3', '_', 'K', '_', 'S', ' ', ' '),
        12 => (6nat, 'Q', '3', '_', 'K', '_', 'M', ' ', ' '),
        13 => (6nat, 'Q', '3', '_', 'K', '_', 'L', ' ', ' '),
        14 => (6nat, 'Q', '4', '_', 'K', '_', 'S', ' ', ' '),
        15 => (6nat, 'Q', '4', '_', 'K', '_', 'M', ' ', ' '),
        16 => (6nat, 'Q', '5', '_', 'K', '_', 'S', ' ', ' '),
        17 => (6nat, 'Q', '5', '_', 'K', '_', 'M', ' ', ' '),
        18 => (4nat, 'Q', '6', '_', 'K', ' ', ' ', ' ', ' '),
        19 => (7nat, 'I', 'Q', '2', '_', 'X', 'X', 'S', ' '),
        20 => (6nat, 'I', 'Q', '2', '_', 'X', 'S', ' ', ' '),
        21 => (6nat, 'Q', '2', '_', 'K', '_', 'S', ' ', ' '),
        22 => (6nat, 'I', 'Q', '3', '_', 'X', 'S', ' ', ' '),
        23 => (7nat, 'I', 'Q', '3', '_', 'X', 'X', 'S', ' '),
        24 => (5nat, 'I', 'Q', '1', '_', 'S', ' ', ' ', ' '),
        25 => (6nat, 'I', 'Q', '4', '_', 'N', 'L', ' ', ' '),
        26 => (5nat, 'I', 'Q', '3', '_', 'S', ' ', ' ', ' '),
        27 => (5nat, 'I', 'Q', '3', '_', 'M', ' ', ' ', ' '),
        28 => (5nat, 'I', 'Q', '2', '_', 'S', ' ', ' ', ' '),
        29 => (5nat, 'I', 'Q', '2', '_', 'M', ' ', ' ', ' '),
        30 => (5nat, 'I', 'Q', '1', '_', 'M', ' ', ' ', ' '),
        31 => (4nat, 'B', 'F', '1', '6', ' ', ' ', ' ', ' '),
        32 => (8nat, 'Q', '4', '_', '0', '_', '4', '_', '4'),
        33 => (8nat, 'Q', '4', '_', '0', '_', '4', '_', '8'),
        34 => (8nat, 'Q', '4', '_', '0', '_', '8', '_', '8'),
        35 => (5nat, 'T', 'Q', '1', '_', '0', ' ', ' ', ' '),
        36 => (5nat, 'T', 'Q', '2', '_', '0', ' ', ' ', ' '),
        37 => (6nat, 'I', 'Q', '4', '_', 'X', 'S', ' ', ' '),
        _ => (0nat, ' ', ' ', ' ', ' ', ' ', ' ', ' ', ' '),
    }
}

proof fn lemma_name_shape(c: u32)
    requires
        quant_name(c) is Some,
    ensures
        name_shape(quant_name(c)->0) == code_shape(c),
{
    reveal_strlit("F32");
    reveal_strlit("F16");
    reveal_strlit("Q4_0");
    reveal_strlit("Q4_1");
    reveal_strlit("Q5_0");
    reveal_strlit("Q5_1");
    reveal_strlit("Q8_0");
    reveal_strlit("Q8_1");
    reveal_strlit("Q2_K");
    reveal_strlit("Q3_K_S");
    reveal_strlit("Q3_K_M");
    reveal_strlit("Q3_K_L");
    reveal_strlit("Q4_K_S");
    reveal_strlit("Q4_K_M");
    reveal_strlit("Q5_K_S");
    reveal_strlit("Q5_K_M");
    reveal_strlit("Q6_K");
    reveal_strlit("IQ2_XXS");
    reveal_strlit("IQ2_XS");
    reveal_strlit("Q2_K_S");
    reveal_strlit("IQ3_XS");
    reveal_strlit("IQ3_XXS");
    reveal_strlit("IQ1_S");
    reveal_strlit("IQ4_NL");
    reveal_strlit("IQ3_S");
    reveal_strlit("IQ3_M");
    reveal_strlit("IQ2_S");
    reveal_strlit("IQ2_M");
    reveal_strlit("IQ1_M");
    reveal_strlit("BF16");
    reveal_strlit("Q4_0_4_4");
    reveal_strlit("Q4_0_4_8");
    reveal_strlit("Q4_0_8_8");
    reveal_strlit("TQ1_0");
    reveal_strlit("TQ2_0");
    reveal_strlit("IQ4_XS");
}

/// Distinct codes have distinct names: a quantization name identifies its
/// `general.file_type` code, so `file_type_to_name` never gives two codes
/// the same name.
pub proof fn quant_names_distinct(a: u32, b: u32)
    requires
        quant_name(a) is Some,
        quant_name(a) == quant_name(b),
    ensures
        a == b,
{
    lemma_name_shape(a);
    lemma_name_shape(b);
}

/// The quantization name of a `general.file_type` code (e.g. 15 is `Q4_K_M`).
pub fn file_type_to_name(file_type: u32) -> (name: Option<String>)
    ensures
        match quant_name(file_type) {
            Some(n) => name matches Some(s) && s@ == n,
            None => name is None,
        },
{
    let lit: &str = match file_type {
        0 => "F32",
        1 => "F16",
        2 => "Q4_0",
        3 => "Q4_1",
        6 => "Q5_0",
        7 => "Q5_1",
        8 => "Q8_0",
        9 => "Q8_1",
        10 => "Q2_K",
        11 => "Q3_K_S",
        12 => "Q3_K_M",
        13 => "Q3_K_L",
        14 => "Q4_K_S",
        15 => "Q4_K_M",
        16 => "Q5_K_S",
        17 => "Q5_K_M",
        18 => "Q6_K",
        19 => "IQ2_XXS",
        20 => "IQ2_XS",
        21 => "Q2_K_S",
        22 => "IQ3_XS",
        23 => "IQ3_XXS",
        24 => "IQ1_S",
        25 => "IQ4_NL",
        26 => "IQ3_S",
        27 => "IQ3_M",
        28 => "IQ2_S",
        29 => "IQ2_M",
        30 => "IQ1_M",
        31 => "BF16",
        32 => "Q4_0_4_4",
        33 => "Q4_0_4_8",
        34 => "Q4_0_8_8",
        35 => "TQ1_0",
        36 => "TQ2_0",
        37 => "IQ4_XS",
        _ => {
            return None;
        },
    };
    Some(String::from_str(lit))
}

/// Rough bytes per weight of a `general.file_type` code, in thousandths of a
/// byte (Q4_K_M is 563); 500 for codes without an entry.
pub open spec fn weight_bytes_milli(file_type: u32) -> nat {
    match file_type {
        0 => 4000,
        1 | 31 => 2000,
        2 | 3 => 518,
        6 | 7 => 625,
        8 | 9 => 1000,
        10 | 21 => 250,
        11 => 250,
        12 => 313,
        13 => 375,
        14 => 500,
        15 => 563,
        16 => 625,
        17 => 688,
        18 => 750,
        19 | 20 => 188,
        22 | 23 => 313,
        24 => 188,
        25 | 37 => 500,
        26 | 27 => 313,
        28 | 29 => 250,
        30 => 188,
        35 | 36 => 125,
        _ => 500,
    }
}

/// Rough bytes per weight of a quantization type, in thousandths of a byte
/// (see `weight_bytes_milli`); for coarse estimates, the file size being the
/// better measure of the weights.
pub fn file_type_bytes_per_weight_milli(file_type: u32) -> (m: u32)
    ensures
        m == weight_bytes_milli(file_type),
{
    match file_type {
        0 => 4000,
        1 | 31 => 2000,
        2 | 3 => 518,
        6 | 7 => 625,
        8 | 9 => 1000,
        10 | 21 => 250,
        11 => 250,
        12 => 313,
        13 => 375,
        14 => 500,
        15 => 563,
        16 => 625,
        17 => 688,
        18 => 750,
        19 | 20 => 188,
        22 | 23 => 313,
        24 => 188,
        25 | 37 => 500,
        26 | 27 => 313,
        28 | 29 => 250,
        30 => 188,
        35 | 36 => 125,
        _ => 500,
    }
}

} // verus!
