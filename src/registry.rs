use vstd::prelude::*;

verus! {

/// The fixed, ordered list of mirror base addresses. Earlier entries are
/// tried first; the order never changes once the registry is built.
pub struct MirrorRegistry {
    bases: Vec<String>,
}

/// The public radio-browser mirrors, in the order they are tried.
pub open spec fn radio_browser_bases() -> Seq<Seq<char>> {
    seq![
        "https://all.api.radio-browser.info"@,
        "https://de1.api.radio-browser.info"@,
        "https://fr1.api.radio-browser.info"@,
        "https://at1.api.radio-browser.info"@,
        "https://nl1.api.radio-browser.info"@,
        "https://us1.api.radio-browser.info"@,
        "https://es1.api.radio-browser.info"@,
    ]
}

impl View for MirrorRegistry {
    type V = Seq<Seq<char>>;

    closed spec fn view(&self) -> Seq<Seq<char>> {
        self.bases@.map_values(|s: String| s@)
    }
}

impl MirrorRegistry {
    /// A registry over the given base addresses, kept in the given order.
    pub fn new(bases: Vec<String>) -> (r: MirrorRegistry)
        ensures
            r@ == bases@.map_values(|s: String| s@),
    {
        MirrorRegistry { bases }
    }

    /// The registry of the public radio-browser mirrors.
    pub fn radio_browser() -> (r: MirrorRegistry)
        ensures
            r@ == radio_browser_bases(),
    {
        let bases: Vec<String> = vec![
            String::from_str("https://all.api.radio-browser.info"),
            String::from_str("https://de1.api.radio-browser.info"),
            String::from_str("https://fr1.api.radio-browser.info"),
            String::from_str("https://at1.api.radio-browser.info"),
            String::from_str("https://nl1.api.radio-browser.info"),
            String::from_str("https://us1.api.radio-browser.info"),
            String::from_str("https://es1.api.radio-browser.info"),
        ];
        let r = MirrorRegistry { bases };
        assert(r@ =~= radio_browser_bases());
        r
    }

    /// The number of mirrors.
    pub fn len(&self) -> (n: usize)
        ensures
            n == self@.len(),
    {
        self.bases.len()
    }

    /// The base address of the mirror at position `k`.
    pub fn base(&self, k: usize) -> (b: &str)
        requires
            k < self@.len(),
        ensures
            b@ == self@[k as int],
    {
        self.bases[k].as_str()
    }
}

} // verus!
