use vstd::prelude::*;

verus! {

/// A space or a tab: what may stand before a line's first token.
pub open spec fn is_blank(c: u8) -> bool {
    c == 32 || c == 9
}

/// A byte that ends a token: space, tab, carriage return or line feed.
pub open spec fn ends_token(c: u8) -> bool {
    c == 32 || c == 9 || c == 13 || c == 10
}

/// The first index from `i` on that is not a space or a tab.
pub open spec fn skip_blanks(b: Seq<u8>, i: int) -> int
    decreases b.len() - i,
{
    if 0 <= i < b.len() && is_blank(b[i]) {
        skip_blanks(b, i + 1)
    } else {
        i
    }
}

/// The end of the token that starts at `i`.
pub open spec fn token_end(b: Seq<u8>, i: int) -> int
    decreases b.len() - i,
{
    if 0 <= i < b.len() && !ends_token(b[i]) {
        token_end(b, i + 1)
    } else {
        i
    }
}

/// The statements whose reading never stops the OBJ parser: vertex data
/// (`v`, `vt`, `vn`, `vp`), elements (`f`, `fo`, `p`, `l`), grouping
/// (`g`, `s`, `mg`, `o`) and material references (`usemtl`, `mtllib`).
pub open spec fn is_obj_keyword(t: Seq<u8>) -> bool {
    ||| t == seq![118u8]
    ||| t == seq![118u8, 116u8]
    ||| t == seq![118u8, 110u8]
    ||| t == seq![118u8, 112u8]
    ||| t == seq![102u8]
    ||| t == seq![102u8, 111u8]
    ||| t == seq![112u8]
    ||| t == seq![108u8]
    ||| t == seq![103u8]
    ||| t == seq![115u8]
    ||| t == seq![109u8, 103u8]
    ||| t == seq![111u8]
    ||| t == seq![117u8, 115u8, 101u8, 109u8, 116u8, 108u8]
    ||| t == seq![109u8, 116u8, 108u8, 108u8, 105u8, 98u8]
}

/// Whether a line starts at `i`.
pub open spec fn is_line_start(b: Seq<u8>, i: int) -> bool {
    i == 0 || b[i - 1] == 10
}

/// The line that starts at `i` is blank, a comment, or a statement of
/// `is_obj_keyword`.
pub open spec fn line_is_supported(b: Seq<u8>, i: int) -> bool {
    let j = skip_blanks(b, i);
    ||| j >= b.len()
    ||| b[j] == 10
    ||| b[j] == 13 && (j + 1 == b.len() || b[j + 1] == 10)
    ||| b[j] == 35
    ||| is_obj_keyword(b.subrange(j, token_end(b, j)))
}

/// An OBJ text the loader reads to a result: no line continuation
/// (backslash), and every line blank, a comment, or a supported statement.
pub open spec fn is_supported_obj_text(b: Seq<u8>) -> bool {
    &&& forall|k: int| 0 <= k < b.len() ==> b[k] != 92
    &&& forall|i: int| 0 <= i < b.len() && is_line_start(b, i) ==> line_is_supported(b, i)
}

fn skip_blanks_from(b: &Vec<u8>, i: usize) -> (r: usize)
    requires
        i <= b.len(),
    ensures
        r == skip_blanks(b@, i as int),
        i <= r <= b.len(),
{
    let mut j = i;
    while j < b.len() && (b[j] == 32 || b[j] == 9)
        invariant
            i <= j <= b.len(),
            skip_blanks(b@, i as int) == skip_blanks(b@, j as int),
        decreases b.len() - j,
    {
        j = j + 1;
    }
    j
}

fn token_end_from(b: &Vec<u8>, i: usize) -> (r: usize)
    requires
        i <= b.len(),
    ensures
        r == token_end(b@, i as int),
        i <= r <= b.len(),
{
    let mut j = i;
    while j < b.len() && !(b[j] == 32 || b[j] == 9 || b[j] == 13 || b[j] == 10)
        invariant
            i <= j <= b.len(),
            token_end(b@, i as int) == token_end(b@, j as int),
        decreases b.len() - j,
    {
        j = j + 1;
    }
    j
}

/// Whether `b[start..end]` equals `w`.
fn span_equals(b: &Vec<u8>, start: usize, end: usize, w: &Vec<u8>) -> (r: bool)
    requires
        start <= end <= b.len(),
    ensures
        r == (b@.subrange(start as int, end as int) == w@),
{
    if end - start != w.len() {
        return false;
    }
    let mut k: usize = 0;
    while k < w.len()
        invariant
            k <= w.len(),
            w.len() == end - start,
            start <= end <= b.len(),
            forall|m: int| 0 <= m < k ==> b@[start + m] == w@[m],
        decreases w.len() - k,
    {
        if b[start + k] != w[k] {
            assert(b@.subrange(start as int, end as int)[k as int] != w@[k as int]);
            return false;
        }
        k = k + 1;
    }
    assert(b@.subrange(start as int, end as int) =~= w@);
    true
}

fn keyword_at(b: &Vec<u8>, start: usize, end: usize) -> (r: bool)
    requires
        start <= end <= b.len(),
    ensures
        r == is_obj_keyword(b@.subrange(start as int, end as int)),
{
    // `v`
    let w: Vec<u8> = vec![118u8];
    assert(w@ == seq![118u8]);
    if span_equals(b, start, end, &w) {
        return true;
    }
    // `vt`
    let w: Vec<u8> = vec![118u8, 116u8];
    assert(w@ == seq![118u8, 116u8]);
    if span_equals(b, start, end, &w) {
        return true;
    }
    // `vn`
    let w: Vec<u8> = vec![118u8, 110u8];
    assert(w@ == seq![118u8, 110u8]);
    if span_equals(b, start, end, &w) {
        return true;
    }
    // `vp`
    let w: Vec<u8> = vec![118u8, 112u8];
    assert(w@ == seq![118u8, 112u8]);
    if span_equals(b, start, end, &w) {
        return true;
    }
    // `f`
    let w: Vec<u8> = vec![102u8];
    assert(w@ == seq![102u8]);
    if span_equals(b, start, end, &w) {
        return true;
    }
    // `fo`
    let w: Vec<u8> = vec![102u8, 111u8];
    assert(w@ == seq![102u8, 111u8]);
    if span_equals(b, start, end, &w) {
        return true;
    }
    // `p`
    let w: Vec<u8> = vec![112u8];
    assert(w@ == seq![112u8]);
    if span_equals(b, start, end, &w) {
        return true;
    }
    // `l`
    let w: Vec<u8> = vec![108u8];
    assert(w@ == seq![108u8]);
    if span_equals(b, start, end, &w) {
        return true;
    }
    // `g`
    let w: Vec<u8> = vec![103u8];
    assert(w@ == seq![103u8]);
    if span_equals(b, start, end, &w) {
        return true;
    }
    // `s`
    let w: Vec<u8> = vec![115u8];
    assert(w@ == seq![115u8]);
    if span_equals(b, start, end, &w) {
        return true;
    }
    // `mg`
    let w: Vec<u8> = vec![109u8, 103u8];
    assert(w@ == seq![109u8, 103u8]);
    if span_equals(b, start, end, &w) {
        return true;
    }
    // `o`
    let w: Vec<u8> = vec![111u8];
    assert(w@ == seq![111u8]);
    if span_equals(b, start, end, &w) {
        return true;
    }
    // `usemtl`
    let w: Vec<u8> = vec![117u8, 115u8, 101u8, 109u8, 116u8, 108u8];
    assert(w@ == seq![117u8, 115u8, 101u8, 109u8, 116u8, 108u8]);
    if span_equals(b, start, end, &w) {
        return true;
    }
    // `mtllib`
    let w: Vec<u8> = vec![109u8, 116u8, 108u8, 108u8, 105u8, 98u8];
    assert(w@ == seq![109u8, 116u8, 108u8, 108u8, 105u8, 98u8]);
    if span_equals(b, start, end, &w) {
        return true;
    }
    false
}

fn line_supported_at(b: &Vec<u8>, i: usize) -> (r: bool)
    requires
        i <= b.len(),
    ensures
        r == line_is_supported(b@, i as int),
{
    let j = skip_blanks_from(b, i);
    if j >= b.len() || b[j] == 10 || b[j] == 35 {
        true
    } else if b[j] == 13 && (j + 1 == b.len() || b[j + 1] == 10) {
        true
    } else {
        let e = token_end_from(b, j);
        keyword_at(b, j, e)
    }
}

/// Whether the loader reads `text` to a result rather than stopping on a
/// statement it does not implement.
pub fn supported_obj_text(text: &Vec<u8>) -> (r: bool)
    ensures
        r == is_supported_obj_text(text@),
{
    let mut k: usize = 0;
    while k < text.len()
        invariant
            k <= text.len(),
            forall|m: int| 0 <= m < k ==> text@[m] != 92,
        decreases text.len() - k,
    {
        if text[k] == 92 {
            return false;
        }
        k = k + 1;
    }
    let mut i: usize = 0;
    while i < text.len()
        invariant
            i <= text.len(),
            forall|m: int| 0 <= m < text.len() ==> text@[m] != 92,
            forall|m: int| 0 <= m < i && is_line_start(text@, m) ==> line_is_supported(text@, m),
        decreases text.len() - i,
    {
        if i == 0 || text[i - 1] == 10 {
            if !line_supported_at(text, i) {
                return false;
            }
        }
        i = i + 1;
    }
    true
}

} // verus!
