use vstd::prelude::*;

verus! {

/// An absolute URL, held as its parts.
#[derive(Debug, Clone, PartialEq, Eq)]
pub struct Url {
    pub scheme: Vec<u8>,
    pub host: Vec<u8>,
    pub port: Option<u16>,
    /// The path, with its leading `/`.
    pub path: Vec<u8>,
    /// The query, without its `?`.
    pub query: Option<Vec<u8>>,
    /// The fragment, without its `#`.
    pub fragment: Option<Vec<u8>>,
}

pub open spec fn is_alpha(b: u8) -> bool {
    (65 <= b && b <= 90) || (97 <= b && b <= 122)
}

/// `ALPHA *( ALPHA / DIGIT / "+" / "-" / "." )`.
pub open spec fn is_scheme(s: Seq<u8>) -> bool {
    &&& s.len() > 0
    &&& is_alpha(s[0])
    &&& forall|i: int|
        0 <= i < s.len() ==> {
            let b = #[trigger] s[i];
            is_alpha(b) || (48 <= b && b <= 57) || b == 43 || b == 45 || b == 46
        }
}

/// A byte that may stand in a host: visible ASCII other than `/`, `?`, `#`
/// and `@`, which would end the host or turn it into user information.
pub open spec fn is_host_byte(b: u8) -> bool {
    33 <= b && b <= 126 && b != 47 && b != 63 && b != 35 && b != 64
}

/// A non-empty host made of host bytes.
pub open spec fn is_host(s: Seq<u8>) -> bool {
    s.len() > 0 && forall|i: int| 0 <= i < s.len() ==> is_host_byte(#[trigger] s[i])
}

/// Whether `s` is a scheme.
pub fn valid_scheme(s: &Vec<u8>) -> (r: bool)
    ensures
        r == is_scheme(s@),
{
    if s.len() == 0 {
        return false;
    }
    let mut i: usize = 0;
    while i < s.len()
        invariant
            0 <= i <= s.len(),
            s.len() > 0,
            i > 0 ==> is_alpha(s@[0]),
            forall|j: int|
                0 <= j < i ==> {
                    let b = #[trigger] s@[j];
                    is_alpha(b) || (48 <= b && b <= 57) || b == 43 || b == 45 || b == 46
                },
        decreases s.len() - i,
    {
        let b = s[i];
        let alpha = (65 <= b && b <= 90) || (97 <= b && b <= 122);
        if i == 0 && !alpha {
            return false;
        }
        if !(alpha || (48 <= b && b <= 57) || b == 43 || b == 45 || b == 46) {
            return false;
        }
        i = i + 1;
    }
    true
}

/// Whether `s` is a host.
pub fn valid_host(s: &Vec<u8>) -> (r: bool)
    ensures
        r == is_host(s@),
{
    if s.len() == 0 {
        return false;
    }
    let mut i: usize = 0;
    while i < s.len()
        invariant
            0 <= i <= s.len(),
            forall|j: int| 0 <= j < i ==> is_host_byte(#[trigger] s@[j]),
        decreases s.len() - i,
    {
        let b = s[i];
        if !(33 <= b && b <= 126 && b != 47 && b != 63 && b != 35 && b != 64) {
            return false;
        }
        i = i + 1;
    }
    true
}

} // verus!
