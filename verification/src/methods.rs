//! The installation methods: their codes and what each stands for.
use vstd::prelude::*;
use crate::text::{find_code, lemma_own_place, position, same_text};

verus! {

/// How many installation methods there are.
pub const METHOD_COUNT: usize = 9;

/// The installation method codes, in the order of the current tables' rows.
pub const METHOD_CODES: [&'static str; 9] = ["A1", "A2", "B1", "B2", "C", "D1", "D2", "E", "F"];

/// The place of an installation method code among the methods.
pub open spec fn method_index(method: Seq<char>) -> Option<int> {
    position(METHOD_CODES@, method)
}

/// Finds an installation method code among the methods.
pub fn find_method(method: &str) -> (r: Option<usize>)
    ensures
        match r {
            Some(i) => method_index(method@) == Some(i as int) && i < METHOD_COUNT,
            None => method_index(method@) is None,
        },
{
    find_code(&METHOD_CODES, method)
}

/// The method codes differ from one another: each has its own index for its
/// place.
pub proof fn lemma_method_code_place(i: int)
    requires
        0 <= i < METHOD_COUNT,
    ensures
        method_index(METHOD_CODES[i]@) == Some(i),
{
    reveal_strlit("A1");
    reveal_strlit("A2");
    reveal_strlit("B1");
    reveal_strlit("B2");
    reveal_strlit("C");
    reveal_strlit("D1");
    reveal_strlit("D2");
    reveal_strlit("E");
    reveal_strlit("F");
    lemma_own_place(METHOD_CODES@, i);
}

/// What an installation method code stands for, in words.
pub open spec fn method_description(method: Seq<char>) -> Seq<char> {
    if method == "A1"@ {
        "단열벽 속 전선관 (절연전선/단심 케이블)"@
    } else if method == "A2"@ {
        "단열벽 속 전선관 (다심 케이블)"@
    } else if method == "B1"@ {
        "벽면 고정 전선관 (절연전선/단심 케이블)"@
    } else if method == "B2"@ {
        "벽면 고정 전선관 (다심 케이블)"@
    } else if method == "C"@ {
        "벽면/천정 직접 고정 (공기 중)"@
    } else if method == "D1"@ {
        "지중 매설 덕트"@
    } else if method == "D2"@ {
        "지중 매설 직매"@
    } else if method == "E"@ {
        "케이블 트레이 (천공형, 단심)"@
    } else if method == "F"@ {
        "케이블 트레이 (천공형, 다심)"@
    } else {
        "기타"@
    }
}

/// Describes an installation method in words; a code that is not known is
/// described as "other".
pub fn get_install_method_description(method: &str) -> (r: String)
    ensures
        r@ == method_description(method@),
{
    let words: &'static str = if same_text(method, "A1") {
        "단열벽 속 전선관 (절연전선/단심 케이블)"
    } else if same_text(method, "A2") {
        "단열벽 속 전선관 (다심 케이블)"
    } else if same_text(method, "B1") {
        "벽면 고정 전선관 (절연전선/단심 케이블)"
    } else if same_text(method, "B2") {
        "벽면 고정 전선관 (다심 케이블)"
    } else if same_text(method, "C") {
        "벽면/천정 직접 고정 (공기 중)"
    } else if same_text(method, "D1") {
        "지중 매설 덕트"
    } else if same_text(method, "D2") {
        "지중 매설 직매"
    } else if same_text(method, "E") {
        "케이블 트레이 (천공형, 단심)"
    } else if same_text(method, "F") {
        "케이블 트레이 (천공형, 다심)"
    } else {
        "기타"
    };
    String::from_str(words)
}

} // verus!
