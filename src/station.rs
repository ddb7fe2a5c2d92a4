use vstd::prelude::*;

verus! {

/// The text a nullable payload field stands for: its value when present,
/// the empty string when it was null or absent.
pub open spec fn or_empty(v: Option<String>) -> Seq<char> {
    match v {
        Some(s) => s@,
        None => Seq::empty(),
    }
}

/// One station as a mirror publishes it. Every field is a string that is
/// never missing: a null or absent value in the payload becomes `""`.
#[derive(Debug, Clone, PartialEq, Eq)]
pub struct Station {
    pub stationuuid: String,
    pub name: String,
    pub url: String,
    pub url_resolved: String,
    pub homepage: String,
    pub favicon: String,
    pub tags: String,
    pub country: String,
    pub language: String,
}

/// The fields of one station object as they arrive on the wire, before
/// defaulting: `None` where the key was absent or its value was `null`.
#[derive(Debug, Clone, PartialEq, Eq)]
pub struct StationPayload {
    pub stationuuid: Option<String>,
    pub name: Option<String>,
    pub url: Option<String>,
    pub url_resolved: Option<String>,
    pub homepage: Option<String>,
    pub favicon: Option<String>,
    pub tags: Option<String>,
    pub country: Option<String>,
    pub language: Option<String>,
}

/// Defaults one nullable field: the value itself, or `""` in its absence.
pub fn field_or_empty(v: Option<String>) -> (r: String)
    ensures
        r@ == or_empty(v),
{
    match v {
        Some(s) => s,
        None => String::new(),
    }
}

impl Station {
    /// Builds the record from a payload, defaulting each field on its own.
    pub fn from_payload(p: StationPayload) -> (r: Station)
        ensures
            r.stationuuid@ == or_empty(p.stationuuid),
            r.name@ == or_empty(p.name),
            r.url@ == or_empty(p.url),
            r.url_resolved@ == or_empty(p.url_resolved),
            r.homepage@ == or_empty(p.homepage),
            r.favicon@ == or_empty(p.favicon),
            r.tags@ == or_empty(p.tags),
            r.country@ == or_empty(p.country),
            r.language@ == or_empty(p.language),
    {
        Station {
            stationuuid: field_or_empty(p.stationuuid),
            name: field_or_empty(p.name),
            url: field_or_empty(p.url),
            url_resolved: field_or_empty(p.url_resolved),
            homepage: field_or_empty(p.homepage),
            favicon: field_or_empty(p.favicon),
            tags: field_or_empty(p.tags),
            country: field_or_empty(p.country),
            language: field_or_empty(p.language),
        }
    }
}

} // verus!
