use vstd::prelude::*;

verus! {

/// One entry of a header multimap: a name and a value, both as raw bytes.
#[derive(Debug, Clone, PartialEq, Eq)]
pub struct Header {
    pub name: Vec<u8>,
    pub value: Vec<u8>,
}

/// The model of a header: its name and its value.
pub type HeaderView = (Seq<u8>, Seq<u8>);

impl View for Header {
    type V = HeaderView;

    open spec fn view(&self) -> HeaderView {
        (self.name@, self.value@)
    }
}

impl Header {
    pub fn new(name: Vec<u8>, value: Vec<u8>) -> (r: Header)
        ensures
            r.name@ == name@,
            r.value@ == value@,
    {
        Header { name, value }
    }
}

/// The model of a header list, in order, duplicates kept.
pub open spec fn headers_view(s: Seq<Header>) -> Seq<HeaderView> {
    s.map_values(|h: Header| h@)
}

/// A `tchar` of the HTTP token grammar.
pub open spec fn is_tchar(b: u8) -> bool {
    (48u8 <= b && b <= 57u8) || (97u8 <= b && b <= 122u8) || (65u8 <= b && b <= 90u8) || b == 33u8
        || b == 35u8 || b == 36u8 || b == 37u8 || b == 38u8 || b == 39u8 || b == 42u8 || b
        == 43u8 || b == 45u8 || b == 46u8 || b == 94u8 || b == 95u8 || b == 96u8 || b == 124u8 || b
        == 126u8
}

/// A non-empty sequence of `tchar`s: the grammar of methods and header names.
pub open spec fn is_token(s: Seq<u8>) -> bool {
    s.len() > 0 && forall|i: int| 0 <= i < s.len() ==> is_tchar(#[trigger] s[i])
}

/// A byte that may stand in a header value: visible, a space or a tab.
pub open spec fn is_value_byte(b: u8) -> bool {
    (b >= 32 && b != 127) || b == 9
}

pub open spec fn is_header_value(s: Seq<u8>) -> bool {
    forall|i: int| 0 <= i < s.len() ==> is_value_byte(#[trigger] s[i])
}

pub open spec fn is_valid_header(h: HeaderView) -> bool {
    is_token(h.0) && is_header_value(h.1)
}

/// ASCII lower case of a byte.
pub open spec fn lower(b: u8) -> u8 {
    if 65u8 <= b && b <= 90u8 {
        (b + 32) as u8
    } else {
        b
    }
}

/// Header names compare without regard to ASCII case.
pub open spec fn name_eq(a: Seq<u8>, b: Seq<u8>) -> bool {
    a.len() == b.len() && forall|i: int| 0 <= i < a.len() ==> lower(#[trigger] a[i]) == lower(b[i])
}

/// The headers of `s` whose name is not `n`, in their order.
pub open spec fn without_name(s: Seq<HeaderView>, n: Seq<u8>) -> Seq<HeaderView>
    decreases s.len(),
{
    if s.len() == 0 {
        seq![]
    } else if name_eq(s[0].0, n) {
        without_name(s.skip(1), n)
    } else {
        seq![s[0]] + without_name(s.skip(1), n)
    }
}

/// The value of the first header of `s` named `n`.
pub open spec fn first_value(s: Seq<HeaderView>, n: Seq<u8>) -> Option<Seq<u8>>
    decreases s.len(),
{
    if s.len() == 0 {
        None
    } else if name_eq(s[0].0, n) {
        Some(s[0].1)
    } else {
        first_value(s.skip(1), n)
    }
}

fn lower_byte(b: u8) -> (r: u8)
    ensures
        r == lower(b),
{
    if 65u8 <= b && b <= 90u8 {
        b + 32
    } else {
        b
    }
}

fn tchar(b: u8) -> (r: bool)
    ensures
        r == is_tchar(b),
{
    (48u8 <= b && b <= 57u8) || (97u8 <= b && b <= 122u8) || (65u8 <= b && b <= 90u8) || b == 33u8
        || b == 35u8 || b == 36u8 || b == 37u8 || b == 38u8 || b == 39u8 || b == 42u8 || b
        == 43u8 || b == 45u8 || b == 46u8 || b == 94u8 || b == 95u8 || b == 96u8 || b == 124u8 || b
        == 126u8
}

/// Whether `s` is a token (a method or a header name).
pub fn valid_token(s: &Vec<u8>) -> (r: bool)
    ensures
        r == is_token(s@),
{
    if s.len() == 0 {
        return false;
    }
    let mut i: usize = 0;
    while i < s.len()
        invariant
            0 <= i <= s.len(),
            forall|j: int| 0 <= j < i ==> is_tchar(#[trigger] s@[j]),
        decreases s.len() - i,
    {
        if !tchar(s[i]) {
            return false;
        }
        i = i + 1;
    }
    true
}

/// Whether `s` may stand as a header value.
pub fn valid_header_value(s: &Vec<u8>) -> (r: bool)
    ensures
        r == is_header_value(s@),
{
    let mut i: usize = 0;
    while i < s.len()
        invariant
            0 <= i <= s.len(),
            forall|j: int| 0 <= j < i ==> is_value_byte(#[trigger] s@[j]),
        decreases s.len() - i,
    {
        let b = s[i];
        if !((b >= 32 && b != 127) || b == 9) {
            return false;
        }
        i = i + 1;
    }
    true
}

/// Whether two header names are equal without regard to ASCII case.
pub fn names_match(a: &Vec<u8>, b: &Vec<u8>) -> (r: bool)
    ensures
        r == name_eq(a@, b@),
{
    if a.len() != b.len() {
        return false;
    }
    let mut i: usize = 0;
    while i < a.len()
        invariant
            0 <= i <= a.len(),
            a.len() == b.len(),
            forall|j: int| 0 <= j < i ==> lower(#[trigger] a@[j]) == lower(b@[j]),
        decreases a.len() - i,
    {
        if lower_byte(a[i]) != lower_byte(b[i]) {
            return false;
        }
        i = i + 1;
    }
    true
}

/// The value of the first header in `headers` named `name`, if any.
pub fn get_header<'a>(headers: &'a Vec<Header>, name: &Vec<u8>) -> (r: Option<&'a Vec<u8>>)
    ensures
        match r {
            Some(v) => first_value(headers_view(headers@), name@) == Some(v@),
            None => first_value(headers_view(headers@), name@) is None,
        },
{
    let ghost all = headers_view(headers@);
    assert(all.skip(0) =~= all);
    let mut i: usize = 0;
    while i < headers.len()
        invariant
            0 <= i <= headers.len(),
            all == headers_view(headers@),
            first_value(all, name@) == first_value(all.skip(i as int), name@),
        decreases headers.len() - i,
    {
        assert(all.skip(i as int).skip(1) =~= all.skip(i + 1));
        if names_match(&headers[i].name, name) {
            return Some(&headers[i].value);
        }
        i = i + 1;
    }
    None
}

/// `headers` without those named `name`; the others keep their order.
pub fn remove_named(headers: Vec<Header>, name: &Vec<u8>) -> (r: Vec<Header>)
    ensures
        headers_view(r@) == without_name(headers_view(headers@), name@),
{
    let mut rest = headers;
    let mut kept: Vec<Header> = Vec::new();
    while rest.len() > 0
        invariant
            without_name(headers_view(headers@), name@) == headers_view(kept@) + without_name(
                headers_view(rest@),
                name@,
            ),
        decreases rest.len(),
    {
        let ghost before = rest@;
        let ghost kept_before = kept@;
        let h = rest.remove(0);
        assert(headers_view(rest@) =~= headers_view(before).skip(1));
        if !names_match(&h.name, name) {
            kept.push(h);
            assert(headers_view(kept@) =~= headers_view(kept_before) + seq![h@]);
            assert(headers_view(kept_before) + (seq![h@] + without_name(headers_view(rest@), name@))
                =~= headers_view(kept@) + without_name(headers_view(rest@), name@));
        }
    }
    assert(without_name(headers_view(rest@), name@) =~= seq![]);
    assert(headers_view(kept@) + seq![] =~= headers_view(kept@));
    kept
}

/// Whether two byte strings are equal.
pub fn same_bytes(a: &Vec<u8>, b: &Vec<u8>) -> (r: bool)
    ensures
        r == (a@ == b@),
{
    if a.len() != b.len() {
        return false;
    }
    let mut i: usize = 0;
    while i < a.len()
        invariant
            0 <= i <= a.len(),
            a.len() == b.len(),
            forall|j: int| 0 <= j < i ==> a@[j] == b@[j],
        decreases a.len() - i,
    {
        if a[i] != b[i] {
            return false;
        }
        i = i + 1;
    }
    assert(a@ =~= b@);
    true
}

/// A copy of a byte buffer.
pub fn copy_bytes(s: &Vec<u8>) -> (r: Vec<u8>)
    ensures
        r@ == s@,
{
    let mut r: Vec<u8> = Vec::new();
    let mut i: usize = 0;
    while i < s.len()
        invariant
            0 <= i <= s.len(),
            r@ == s@.subrange(0, i as int),
        decreases s.len() - i,
    {
        r.push(s[i]);
        assert(s@.subrange(0, i + 1) =~= s@.subrange(0, i as int).push(s@[i as int]));
        i = i + 1;
    }
    assert(s@.subrange(0, s.len() as int) =~= s@);
    r
}

} // verus!
