use vstd::prelude::*;
use vstd::string::StringExecFns;

verus! {

/// Configuration of the render window and the frame scheduler: the target
/// frame rate, the window resolution in pixels, and the window title.
/// The value is immutable once handed to initialization; it is built by
/// chained setters, each returning a fresh value.
pub struct AppConfig {
    pub fps: u64,
    pub resolution: [u32; 2],
    pub title: String,
}

/// The built-in default configuration: 60 frames per second, an 800 x 800
/// window, and the stock title.
pub open spec fn is_default_config(c: AppConfig) -> bool {
    &&& c.fps == 60
    &&& c.resolution@[0] == 800
    &&& c.resolution@[1] == 800
    &&& c.title@ == "Shapr-Glium App"@
}

/// The default configuration with its title replaced by `t`.
pub open spec fn is_titled_default(c: AppConfig, t: Seq<char>) -> bool {
    &&& c.fps == 60
    &&& c.resolution@[0] == 800
    &&& c.resolution@[1] == 800
    &&& c.title@ == t
}

impl AppConfig {
    /// The default configuration carrying the given window title.
    pub fn new_with_title(title: &str) -> (c: AppConfig)
        ensures
            is_titled_default(c, title@),
    {
        AppConfig::default().title(title)
    }

    /// Replaces the title, leaving every other field unchanged.
    pub fn title(self, title: &str) -> (c: AppConfig)
        ensures
            c.fps == self.fps,
            c.resolution == self.resolution,
            c.title@ == title@,
    {
        AppConfig { fps: self.fps, resolution: self.resolution, title: String::from_str(title) }
    }
}

impl Default for AppConfig {
    /// The built-in default configuration.
    fn default() -> (c: AppConfig)
        ensures
            is_default_config(c),
    {
        AppConfig { fps: 60, resolution: [800, 800], title: String::from_str("Shapr-Glium App") }
    }
}

/// Querying the configuration is idempotent: any two values that the default
/// constructor may return are equal in every observable field.
pub proof fn lemma_default_config_unique(a: AppConfig, b: AppConfig)
    requires
        is_default_config(a),
        is_default_config(b),
    ensures
        a.fps == b.fps,
        a.resolution@ == b.resolution@,
        a.title@ == b.title@,
{
    assert(a.resolution@ =~= b.resolution@);
}

/// Builder calls on disjoint fields are order-independent: constructing with
/// a title and titling the default yield configurations that differ in no
/// observable field.
pub proof fn lemma_titled_default_unique(a: AppConfig, b: AppConfig, t: Seq<char>)
    requires
        is_titled_default(a, t),
        is_titled_default(b, t),
    ensures
        a.fps == b.fps,
        a.resolution@ == b.resolution@,
        a.title@ == b.title@,
{
    assert(a.resolution@ =~= b.resolution@);
}

} // verus!
