use vstd::prelude::*;
use vstd::string::*;

verus! {

/// Which geocoding provider the configuration selects, with whatever that
/// provider needs to be called.
#[derive(Debug)]
pub enum MapConfig {
    MapsCo { api_key: String },
    NoProvider,
}

impl MapConfig {
    /// The provider's display name, as the configuration file spells it.
    pub fn provider_name(&self) -> (r: String)
        ensures
            (*self matches MapConfig::MapsCo { .. }) ==> r@ == "maps.co"@,
            (*self matches MapConfig::NoProvider) ==> r@ == "none"@,
    {
        match self {
            MapConfig::MapsCo { .. } => "maps.co".to_owned(),
            MapConfig::NoProvider => "none".to_owned(),
        }
    }
}

impl Default for MapConfig {
    /// With no configuration, no provider is selected.
    fn default() -> (r: Self)
        ensures
            r matches MapConfig::NoProvider,
    {
        MapConfig::NoProvider
    }
}

/// The application's on-disk configuration, once decoded to plain values.
#[derive(Debug)]
pub struct AppConfig {
    pub maps: MapConfig,
}

impl Default for AppConfig {
    fn default() -> (r: Self)
        ensures
            r.maps matches MapConfig::NoProvider,
    {
        AppConfig { maps: MapConfig::NoProvider }
    }
}

} // verus!
