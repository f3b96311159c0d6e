use vstd::prelude::*;
use crate::text::str_eq;

verus! {

/// Regional endpoint configuration: an API base host and a realtime-hub host.
#[derive(Debug)]
pub struct AE {
    pub lsl_api: String,
    pub socket_hub: String,
}

impl AE {
    /// An owned copy equal to this endpoint pair.
    pub fn dup(&self) -> (r: AE)
        ensures
            r == *self,
    {
        AE { lsl_api: self.lsl_api.clone(), socket_hub: self.socket_hub.clone() }
    }
}

/// Map of all regional endpoints.
#[derive(Debug)]
pub struct RegionalMap {
    pub us: AE,
    pub eu: AE,
    pub fr: AE,
    pub jp: AE,
    pub de: AE,
    pub ap: AE,
    pub au: AE,
    pub ae: AE,
    pub eu2: AE,
}

impl RegionalMap {
    /// The entry a region key names, or nothing for an unknown key; an
    /// unknown key never falls back to a default entry.
    pub open spec fn spec_get(self, region: Seq<char>) -> Option<AE> {
        if region == "us"@ {
            Some(self.us)
        } else if region == "eu"@ {
            Some(self.eu)
        } else if region == "eu2"@ {
            Some(self.eu2)
        } else if region == "fr"@ {
            Some(self.fr)
        } else if region == "jp"@ {
            Some(self.jp)
        } else if region == "de"@ {
            Some(self.de)
        } else if region == "ap"@ {
            Some(self.ap)
        } else if region == "au"@ {
            Some(self.au)
        } else if region == "ae"@ {
            Some(self.ae)
        } else {
            None
        }
    }

    /// Get endpoint by region key.
    pub fn get(&self, region: &str) -> (r: Option<&AE>)
        ensures
            r matches Some(ae) ==> self.spec_get(region@) == Some(*ae),
            r is None ==> self.spec_get(region@) is None,
    {
        if str_eq(region, "us") {
            Some(&self.us)
        } else if str_eq(region, "eu") {
            Some(&self.eu)
        } else if str_eq(region, "eu2") {
            Some(&self.eu2)
        } else if str_eq(region, "fr") {
            Some(&self.fr)
        } else if str_eq(region, "jp") {
            Some(&self.jp)
        } else if str_eq(region, "de") {
            Some(&self.de)
        } else if str_eq(region, "ap") {
            Some(&self.ap)
        } else if str_eq(region, "au") {
            Some(&self.au)
        } else if str_eq(region, "ae") {
            Some(&self.ae)
        } else {
            None
        }
    }
}

/// Payload of the region-discovery response: the regional endpoint map.
#[derive(Debug)]
pub struct Data {
    pub regional_map: RegionalMap,
}

/// Response from the country/region configuration endpoint.
#[derive(Debug)]
pub struct CountryResponse {
    pub status: i32,
    pub data: Data,
}

} // verus!
