//! The capability descriptor sent when a headless browser session is opened.
//!
//! The descriptor is held as plain values: the vendor options key and the
//! list of command-line flags. Turning it into the wire payload is the
//! runner's job; the logic here only fixes what the payload holds.

use vstd::prelude::*;

verus! {

/// The vendor-specific options key under which the flags are sent.
pub open spec fn spec_options_key() -> Seq<char> {
    "goog:chromeOptions"@
}

/// The fixed flag set of a headless session: no display surface, no GPU,
/// no sandbox, no shared-memory scratch directory.
pub open spec fn spec_headless_args() -> Seq<Seq<char>> {
    seq!["--headless"@, "--disable-gpu"@, "--no-sandbox"@, "--disable-dev-shm-usage"@]
}

/// A capability descriptor: the configuration a session is requested with.
pub struct CapabilityDescriptor {
    /// The key the browser options are filed under.
    pub options_key: String,
    /// The command-line flags handed to the browser.
    pub args: Vec<String>,
}

impl CapabilityDescriptor {
    /// The descriptor's contents as mathematical values.
    pub open spec fn view_args(self) -> Seq<Seq<char>> {
        self.args@.map_values(|s: String| s@)
    }

    /// True exactly of the fixed headless configuration.
    pub open spec fn is_fixed_headless(self) -> bool {
        &&& self.options_key@ == spec_options_key()
        &&& self.view_args() == spec_headless_args()
    }
}

/// Builds the capability descriptor of a headless browser session: always
/// the one fixed flag set, whatever the run.
pub fn create_headless_capabilities() -> (r: CapabilityDescriptor)
    ensures
        r.is_fixed_headless(),
{
    let mut args: Vec<String> = Vec::new();
    args.push(String::from_str("--headless"));
    args.push(String::from_str("--disable-gpu"));
    args.push(String::from_str("--no-sandbox"));
    args.push(String::from_str("--disable-dev-shm-usage"));
    let r = CapabilityDescriptor { options_key: String::from_str("goog:chromeOptions"), args };
    proof {
        assert(r.view_args() =~~= spec_headless_args());
    }
    r
}

/// The capability descriptor never varies across runs: any two descriptors
/// that hold the fixed headless configuration agree in every part.
pub proof fn lemma_capabilities_deterministic(a: CapabilityDescriptor, b: CapabilityDescriptor)
    requires
        a.is_fixed_headless(),
        b.is_fixed_headless(),
    ensures
        a.options_key@ == b.options_key@,
        a.view_args() == b.view_args(),
{
}

} // verus!
