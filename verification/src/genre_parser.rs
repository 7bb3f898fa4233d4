//! The genre notation as free functions over a directory's description.
use crate::settings::EachYellowPagesSettings;
use crate::yp_config::YPConfig;
use vstd::prelude::*;

verus! {

/// Whether `yp_config` reads the parameter called `feature`.
pub fn supported(yp_config: &YPConfig, feature: &str) -> (yes: bool)
    ensures
        yes == yp_config.supports(feature@),
{
    yp_config.supported(feature)
}

/// Writes `genre` as it is announced to the directory that `yp_config`
/// describes, with the parameters of `settings`.
pub fn stringify(genre: &str, yp_config: &YPConfig, settings: &EachYellowPagesSettings) -> (text:
    String)
    ensures
        text@ == yp_config.genre_text(genre@, *settings),
{
    yp_config.genre_full_text(genre, settings)
}

} // verus!
