use vstd::prelude::*;
use crate::countries::{AE, RegionalMap};
use crate::errors::AuthError;
use crate::text::str_eq;

verus! {

/// A selectable data-center identity: one of the fixed region codes, the
/// global pseudo-region, or a free-form override URL.
#[derive(Debug)]
pub enum Region {
    /// Global endpoint; never a data host, only valid as the initial login
    /// target, expected to produce a redirect to the true region.
    Global,
    /// United Arab Emirates
    AE,
    /// Asia-Pacific
    AP,
    /// Australia
    AU,
    /// Canada
    CA,
    /// Germany
    DE,
    /// Europe
    EU,
    /// Europe 2
    EU2,
    /// France
    FR,
    /// Japan
    JP,
    /// United States
    US,
    /// Latin America
    LA,
    /// Russia
    RU,
    /// China
    CN,
    /// Custom endpoint URL
    Custom(String),
}

/// One of the fixed region codes, as a plain value the redirect tracking
/// can compare.
#[derive(Debug, Clone, Copy, PartialEq, Eq, Structural)]
pub enum RegionCode {
    Ae,
    Ap,
    Au,
    Ca,
    De,
    Eu,
    Eu2,
    Fr,
    Jp,
    Us,
    La,
    Ru,
    Cn,
}

impl Region {
    /// An owned copy equal to this region selector.
    pub fn dup(&self) -> (r: Region)
        ensures
            r == *self,
    {
        match self {
            Region::Global => Region::Global,
            Region::AE => Region::AE,
            Region::AP => Region::AP,
            Region::AU => Region::AU,
            Region::CA => Region::CA,
            Region::DE => Region::DE,
            Region::EU => Region::EU,
            Region::EU2 => Region::EU2,
            Region::FR => Region::FR,
            Region::JP => Region::JP,
            Region::US => Region::US,
            Region::LA => Region::LA,
            Region::RU => Region::RU,
            Region::CN => Region::CN,
            Region::Custom(url) => Region::Custom(url.clone()),
        }
    }

    /// The fixed code of this region, if it has one; the global
    /// pseudo-region and a custom override have none.
    pub open spec fn spec_code(self) -> Option<RegionCode> {
        match self {
            Region::Global => None,
            Region::AE => Some(RegionCode::Ae),
            Region::AP => Some(RegionCode::Ap),
            Region::AU => Some(RegionCode::Au),
            Region::CA => Some(RegionCode::Ca),
            Region::DE => Some(RegionCode::De),
            Region::EU => Some(RegionCode::Eu),
            Region::EU2 => Some(RegionCode::Eu2),
            Region::FR => Some(RegionCode::Fr),
            Region::JP => Some(RegionCode::Jp),
            Region::US => Some(RegionCode::Us),
            Region::LA => Some(RegionCode::La),
            Region::RU => Some(RegionCode::Ru),
            Region::CN => Some(RegionCode::Cn),
            Region::Custom(_) => None,
        }
    }

    /// The fixed code of this region, if it has one.
    pub fn code(&self) -> (r: Option<RegionCode>)
        ensures
            r == self.spec_code(),
    {
        match self {
            Region::Global => None,
            Region::AE => Some(RegionCode::Ae),
            Region::AP => Some(RegionCode::Ap),
            Region::AU => Some(RegionCode::Au),
            Region::CA => Some(RegionCode::Ca),
            Region::DE => Some(RegionCode::De),
            Region::EU => Some(RegionCode::Eu),
            Region::EU2 => Some(RegionCode::Eu2),
            Region::FR => Some(RegionCode::Fr),
            Region::JP => Some(RegionCode::Jp),
            Region::US => Some(RegionCode::Us),
            Region::LA => Some(RegionCode::La),
            Region::RU => Some(RegionCode::Ru),
            Region::CN => Some(RegionCode::Cn),
            Region::Custom(_) => None,
        }
    }
}

/// The region a fixed code selects.
pub open spec fn spec_region_of_code(c: RegionCode) -> Region {
    match c {
        RegionCode::Ae => Region::AE,
        RegionCode::Ap => Region::AP,
        RegionCode::Au => Region::AU,
        RegionCode::Ca => Region::CA,
        RegionCode::De => Region::DE,
        RegionCode::Eu => Region::EU,
        RegionCode::Eu2 => Region::EU2,
        RegionCode::Fr => Region::FR,
        RegionCode::Jp => Region::JP,
        RegionCode::Us => Region::US,
        RegionCode::La => Region::LA,
        RegionCode::Ru => Region::RU,
        RegionCode::Cn => Region::CN,
    }
}

/// The region a fixed code selects.
pub fn region_of_code(c: RegionCode) -> (r: Region)
    ensures
        r == spec_region_of_code(c),
{
    match c {
        RegionCode::Ae => Region::AE,
        RegionCode::Ap => Region::AP,
        RegionCode::Au => Region::AU,
        RegionCode::Ca => Region::CA,
        RegionCode::De => Region::DE,
        RegionCode::Eu => Region::EU,
        RegionCode::Eu2 => Region::EU2,
        RegionCode::Fr => Region::FR,
        RegionCode::Jp => Region::JP,
        RegionCode::Us => Region::US,
        RegionCode::La => Region::LA,
        RegionCode::Ru => Region::RU,
        RegionCode::Cn => Region::CN,
    }
}

/// The fixed region code a wire region string names, if any.
pub open spec fn spec_region_code_of(s: Seq<char>) -> Option<RegionCode> {
    if s == "ae"@ {
        Some(RegionCode::Ae)
    } else if s == "ap"@ {
        Some(RegionCode::Ap)
    } else if s == "au"@ {
        Some(RegionCode::Au)
    } else if s == "ca"@ {
        Some(RegionCode::Ca)
    } else if s == "de"@ {
        Some(RegionCode::De)
    } else if s == "eu"@ {
        Some(RegionCode::Eu)
    } else if s == "eu2"@ {
        Some(RegionCode::Eu2)
    } else if s == "fr"@ {
        Some(RegionCode::Fr)
    } else if s == "jp"@ {
        Some(RegionCode::Jp)
    } else if s == "us"@ {
        Some(RegionCode::Us)
    } else if s == "la"@ {
        Some(RegionCode::La)
    } else if s == "ru"@ {
        Some(RegionCode::Ru)
    } else if s == "cn"@ {
        Some(RegionCode::Cn)
    } else {
        None
    }
}

/// Parse a wire region string into its fixed code.
pub fn region_code_of(s: &str) -> (r: Option<RegionCode>)
    ensures
        r == spec_region_code_of(s@),
{
    if str_eq(s, "ae") {
        Some(RegionCode::Ae)
    } else if str_eq(s, "ap") {
        Some(RegionCode::Ap)
    } else if str_eq(s, "au") {
        Some(RegionCode::Au)
    } else if str_eq(s, "ca") {
        Some(RegionCode::Ca)
    } else if str_eq(s, "de") {
        Some(RegionCode::De)
    } else if str_eq(s, "eu") {
        Some(RegionCode::Eu)
    } else if str_eq(s, "eu2") {
        Some(RegionCode::Eu2)
    } else if str_eq(s, "fr") {
        Some(RegionCode::Fr)
    } else if str_eq(s, "jp") {
        Some(RegionCode::Jp)
    } else if str_eq(s, "us") {
        Some(RegionCode::Us)
    } else if str_eq(s, "la") {
        Some(RegionCode::La)
    } else if str_eq(s, "ru") {
        Some(RegionCode::Ru)
    } else if str_eq(s, "cn") {
        Some(RegionCode::Cn)
    } else {
        None
    }
}

/// The endpoint entry of the map that a fixed code selects; codes without
/// an entry in the map select nothing, never a default.
pub open spec fn spec_lookup_code(map: RegionalMap, c: RegionCode) -> Option<AE> {
    match c {
        RegionCode::Us => Some(map.us),
        RegionCode::Eu => Some(map.eu),
        RegionCode::Eu2 => Some(map.eu2),
        RegionCode::Fr => Some(map.fr),
        RegionCode::Jp => Some(map.jp),
        RegionCode::De => Some(map.de),
        RegionCode::Ap => Some(map.ap),
        RegionCode::Au => Some(map.au),
        RegionCode::Ae => Some(map.ae),
        RegionCode::Ca => None,
        RegionCode::La => None,
        RegionCode::Ru => None,
        RegionCode::Cn => None,
    }
}

/// The endpoint entry of the map that a fixed code selects.
pub fn lookup_code(map: &RegionalMap, c: RegionCode) -> (r: Option<&AE>)
    ensures
        r matches Some(ae) ==> spec_lookup_code(*map, c) == Some(*ae),
        r is None ==> spec_lookup_code(*map, c) is None,
{
    match c {
        RegionCode::Us => Some(&map.us),
        RegionCode::Eu => Some(&map.eu),
        RegionCode::Eu2 => Some(&map.eu2),
        RegionCode::Fr => Some(&map.fr),
        RegionCode::Jp => Some(&map.jp),
        RegionCode::De => Some(&map.de),
        RegionCode::Ap => Some(&map.ap),
        RegionCode::Au => Some(&map.au),
        RegionCode::Ae => Some(&map.ae),
        RegionCode::Ca => None,
        RegionCode::La => None,
        RegionCode::Ru => None,
        RegionCode::Cn => None,
    }
}

/// The two lookup paths agree: keying the map by a wire region string
/// yields exactly the entry that parsing the string to a fixed code and
/// looking that code up yields, and a string that names no code finds no
/// entry.
pub proof fn lemma_get_agrees_with_code_lookup(map: RegionalMap, s: Seq<char>)
    ensures
        spec_region_code_of(s) matches Some(c) ==> map.spec_get(s) == spec_lookup_code(map, c),
        spec_region_code_of(s) is None ==> map.spec_get(s) is None,
{
    reveal_strlit("ae");
    reveal_strlit("ap");
    reveal_strlit("au");
    reveal_strlit("ca");
    reveal_strlit("de");
    reveal_strlit("eu");
    reveal_strlit("eu2");
    reveal_strlit("fr");
    reveal_strlit("jp");
    reveal_strlit("us");
    reveal_strlit("la");
    reveal_strlit("ru");
    reveal_strlit("cn");
    assert("ae"@[1] != "ap"@[1]);
    assert("ae"@ != "ap"@);
    assert("ae"@[1] != "au"@[1]);
    assert("ae"@ != "au"@);
    assert("ae"@[0] != "ca"@[0]);
    assert("ae"@ != "ca"@);
    assert("ae"@[0] != "de"@[0]);
    assert("ae"@ != "de"@);
    assert("ae"@[0] != "eu"@[0]);
    assert("ae"@ != "eu"@);
    assert("ae"@.len() != "eu2"@.len());
    assert("ae"@ != "eu2"@);
    assert("ae"@[0] != "fr"@[0]);
    assert("ae"@ != "fr"@);
    assert("ae"@[0] != "jp"@[0]);
    assert("ae"@ != "jp"@);
    assert("ae"@[0] != "us"@[0]);
    assert("ae"@ != "us"@);
    assert("ae"@[0] != "la"@[0]);
    assert("ae"@ != "la"@);
    assert("ae"@[0] != "ru"@[0]);
    assert("ae"@ != "ru"@);
    assert("ae"@[0] != "cn"@[0]);
    assert("ae"@ != "cn"@);
    assert("ap"@[1] != "au"@[1]);
    assert("ap"@ != "au"@);
    assert("ap"@[0] != "ca"@[0]);
    assert("ap"@ != "ca"@);
    assert("ap"@[0] != "de"@[0]);
    assert("ap"@ != "de"@);
    assert("ap"@[0] != "eu"@[0]);
    assert("ap"@ != "eu"@);
    assert("ap"@.len() != "eu2"@.len());
    assert("ap"@ != "eu2"@);
    assert("ap"@[0] != "fr"@[0]);
    assert("ap"@ != "fr"@);
    assert("ap"@[0] != "jp"@[0]);
    assert("ap"@ != "jp"@);
    assert("ap"@[0] != "us"@[0]);
    assert("ap"@ != "us"@);
    assert("ap"@[0] != "la"@[0]);
    assert("ap"@ != "la"@);
    assert("ap"@[0] != "ru"@[0]);
    assert("ap"@ != "ru"@);
    assert("ap"@[0] != "cn"@[0]);
    assert("ap"@ != "cn"@);
    assert("au"@[0] != "ca"@[0]);
    assert("au"@ != "ca"@);
    assert("au"@[0] != "de"@[0]);
    assert("au"@ != "de"@);
    assert("au"@[0] != "eu"@[0]);
    assert("au"@ != "eu"@);
    assert("au"@.len() != "eu2"@.len());
    assert("au"@ != "eu2"@);
    assert("au"@[0] != "fr"@[0]);
    assert("au"@ != "fr"@);
    assert("au"@[0] != "jp"@[0]);
    assert("au"@ != "jp"@);
    assert("au"@[0] != "us"@[0]);
    assert("au"@ != "us"@);
    assert("au"@[0] != "la"@[0]);
    assert("au"@ != "la"@);
    assert("au"@[0] != "ru"@[0]);
    assert("au"@ != "ru"@);
    assert("au"@[0] != "cn"@[0]);
    assert("au"@ != "cn"@);
    assert("ca"@[0] != "de"@[0]);
    assert("ca"@ != "de"@);
    assert("ca"@[0] != "eu"@[0]);
    assert("ca"@ != "eu"@);
    assert("ca"@.len() != "eu2"@.len());
    assert("ca"@ != "eu2"@);
    assert("ca"@[0] != "fr"@[0]);
    assert("ca"@ != "fr"@);
    assert("ca"@[0] != "jp"@[0]);
    assert("ca"@ != "jp"@);
    assert("ca"@[0] != "us"@[0]);
    assert("ca"@ != "us"@);
    assert("ca"@[0] != "la"@[0]);
    assert("ca"@ != "la"@);
    assert("ca"@[0] != "ru"@[0]);
    assert("ca"@ != "ru"@);
    assert("ca"@[1] != "cn"@[1]);
    assert("ca"@ != "cn"@);
    assert("de"@[0] != "eu"@[0]);
    assert("de"@ != "eu"@);
    assert("de"@.len() != "eu2"@.len());
    assert("de"@ != "eu2"@);
    assert("de"@[0] != "fr"@[0]);
    assert("de"@ != "fr"@);
    assert("de"@[0] != "jp"@[0]);
    assert("de"@ != "jp"@);
    assert("de"@[0] != "us"@[0]);
    assert("de"@ != "us"@);
    assert("de"@[0] != "la"@[0]);
    assert("de"@ != "la"@);
    assert("de"@[0] != "ru"@[0]);
    assert("de"@ != "ru"@);
    assert("de"@[0] != "cn"@[0]);
    assert("de"@ != "cn"@);
    assert("eu"@.len() != "eu2"@.len());
    assert("eu"@ != "eu2"@);
    assert("eu"@[0] != "fr"@[0]);
    assert("eu"@ != "fr"@);
    assert("eu"@[0] != "jp"@[0]);
    assert("eu"@ != "jp"@);
    assert("eu"@[0] != "us"@[0]);
    assert("eu"@ != "us"@);
    assert("eu"@[0] != "la"@[0]);
    assert("eu"@ != "la"@);
    assert("eu"@[0] != "ru"@[0]);
    assert("eu"@ != "ru"@);
    assert("eu"@[0] != "cn"@[0]);
    assert("eu"@ != "cn"@);
    assert("eu2"@.len() != "fr"@.len());
    assert("eu2"@ != "fr"@);
    assert("eu2"@.len() != "jp"@.len());
    assert("eu2"@ != "jp"@);
    assert("eu2"@.len() != "us"@.len());
    assert("eu2"@ != "us"@);
    assert("eu2"@.len() != "la"@.len());
    assert("eu2"@ != "la"@);
    assert("eu2"@.len() != "ru"@.len());
    assert("eu2"@ != "ru"@);
    assert("eu2"@.len() != "cn"@.len());
    assert("eu2"@ != "cn"@);
    assert("fr"@[0] != "jp"@[0]);
    assert("fr"@ != "jp"@);
    assert("fr"@[0] != "us"@[0]);
    assert("fr"@ != "us"@);
    assert("fr"@[0] != "la"@[0]);
    assert("fr"@ != "la"@);
    assert("fr"@[0] != "ru"@[0]);
    assert("fr"@ != "ru"@);
    assert("fr"@[0] != "cn"@[0]);
    assert("fr"@ != "cn"@);
    assert("jp"@[0] != "us"@[0]);
    assert("jp"@ != "us"@);
    assert("jp"@[0] != "la"@[0]);
    assert("jp"@ != "la"@);
    assert("jp"@[0] != "ru"@[0]);
    assert("jp"@ != "ru"@);
    assert("jp"@[0] != "cn"@[0]);
    assert("jp"@ != "cn"@);
    assert("us"@[0] != "la"@[0]);
    assert("us"@ != "la"@);
    assert("us"@[0] != "ru"@[0]);
    assert("us"@ != "ru"@);
    assert("us"@[0] != "cn"@[0]);
    assert("us"@ != "cn"@);
    assert("la"@[0] != "ru"@[0]);
    assert("la"@ != "ru"@);
    assert("la"@[0] != "cn"@[0]);
    assert("la"@ != "cn"@);
    assert("ru"@[0] != "cn"@[0]);
    assert("ru"@ != "cn"@);
}

/// What resolving a region selector to a base URL pair yields: a custom
/// override is returned verbatim for both hosts; the global pseudo-region
/// never resolves to a data host; a fixed code selects its map entry or
/// fails as unknown.
pub open spec fn spec_resolve_region(region: Region, map: RegionalMap) -> Result<AE, AuthError> {
    match region {
        Region::Custom(url) => Ok(AE { lsl_api: url, socket_hub: url }),
        Region::Global => Err(AuthError::UnknownRegion),
        _ => match spec_lookup_code(map, region.spec_code()->0) {
            Some(ae) => Ok(ae),
            None => Err(AuthError::UnknownRegion),
        },
    }
}

/// Resolve a region selector to its base URL pair (API host, realtime-hub
/// host), or fail with `UnknownRegion`.
pub fn resolve_region(region: &Region, map: &RegionalMap) -> (r: Result<AE, AuthError>)
    ensures
        r == spec_resolve_region(*region, *map),
{
    match region {
        Region::Custom(url) => Ok(AE { lsl_api: url.clone(), socket_hub: url.clone() }),
        Region::Global => Err(AuthError::UnknownRegion),
        _ => {
            let c = region.code();
            match c {
                Some(code) => match lookup_code(map, code) {
                    Some(ae) => Ok(ae.dup()),
                    None => Err(AuthError::UnknownRegion),
                },
                None => Err(AuthError::UnknownRegion),
            }
        },
    }
}

/// The characters of the API base URL that a login attempt against this
/// region must target: a custom override verbatim, the well-known global
/// endpoint for the global pseudo-region, and the map entry's API host for
/// a fixed code.
pub open spec fn spec_login_api_base(region: Region, map: RegionalMap) -> Option<Seq<char>> {
    match region {
        Region::Custom(url) => Some(url@),
        Region::Global => Some("https://api.libreview.io"@),
        _ => match spec_lookup_code(map, region.spec_code()->0) {
            Some(ae) => Some(ae.lsl_api@),
            None => None,
        },
    }
}

/// The API base URL a login attempt against this region must target, or
/// `UnknownRegion` if the region has no entry in the map.
pub fn login_api_base(region: &Region, map: &RegionalMap) -> (r: Result<String, AuthError>)
    ensures
        r matches Ok(u) ==> spec_login_api_base(*region, *map) == Some(u@),
        r is Err ==> spec_login_api_base(*region, *map) is None,
        r matches Err(e) ==> e is UnknownRegion,
{
    match region {
        Region::Custom(url) => Ok(url.clone()),
        Region::Global => Ok("https://api.libreview.io".to_owned()),
        _ => {
            let c = region.code();
            match c {
                Some(code) => match lookup_code(map, code) {
                    Some(ae) => Ok(ae.lsl_api.clone()),
                    None => Err(AuthError::UnknownRegion),
                },
                None => Err(AuthError::UnknownRegion),
            }
        },
    }
}

} // verus!
