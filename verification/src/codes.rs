//! The code literals of the metric values and what they hold.

use vstd::prelude::*;

verus! {

/// The length and the characters of every literal that is the code of a metric
/// value. With these facts at hand, two codes are seen to differ, and a code
/// is seen to hold no delimiter.
pub proof fn lemma_code_literals()
    ensures
        "A"@.len() == 1 && "A"@[0] == 'A',
        "C"@.len() == 1 && "C"@[0] == 'C',
        "F"@.len() == 1 && "F"@[0] == 'F',
        "H"@.len() == 1 && "H"@[0] == 'H',
        "L"@.len() == 1 && "L"@[0] == 'L',
        "M"@.len() == 1 && "M"@[0] == 'M',
        "N"@.len() == 1 && "N"@[0] == 'N',
        "O"@.len() == 1 && "O"@[0] == 'O',
        "P"@.len() == 1 && "P"@[0] == 'P',
        "R"@.len() == 1 && "R"@[0] == 'R',
        "S"@.len() == 1 && "S"@[0] == 'S',
        "T"@.len() == 1 && "T"@[0] == 'T',
        "U"@.len() == 1 && "U"@[0] == 'U',
        "W"@.len() == 1 && "W"@[0] == 'W',
        "X"@.len() == 1 && "X"@[0] == 'X',
        "LM"@.len() == 2 && "LM"@[0] == 'L' && "LM"@[1] == 'M',
        "MH"@.len() == 2 && "MH"@[0] == 'M' && "MH"@[1] == 'H',
        "ND"@.len() == 2 && "ND"@[0] == 'N' && "ND"@[1] == 'D',
        "OF"@.len() == 2 && "OF"@[0] == 'O' && "OF"@[1] == 'F',
        "TF"@.len() == 2 && "TF"@[0] == 'T' && "TF"@[1] == 'F',
        "UC"@.len() == 2 && "UC"@[0] == 'U' && "UC"@[1] == 'C',
        "UR"@.len() == 2 && "UR"@[0] == 'U' && "UR"@[1] == 'R',
        "POC"@.len() == 3 && "POC"@[0] == 'P' && "POC"@[1] == 'O' && "POC"@[2] == 'C',
{
    reveal_strlit("A");
    reveal_strlit("C");
    reveal_strlit("F");
    reveal_strlit("H");
    reveal_strlit("L");
    reveal_strlit("M");
    reveal_strlit("N");
    reveal_strlit("O");
    reveal_strlit("P");
    reveal_strlit("R");
    reveal_strlit("S");
    reveal_strlit("T");
    reveal_strlit("U");
    reveal_strlit("W");
    reveal_strlit("X");
    reveal_strlit("LM");
    reveal_strlit("MH");
    reveal_strlit("ND");
    reveal_strlit("OF");
    reveal_strlit("TF");
    reveal_strlit("UC");
    reveal_strlit("UR");
    reveal_strlit("POC");
}

} // verus!
