//! Configuration of the browser.
use crate::clock::{duration_nanos, low_64_bits};
use crate::models::{law_profiles_have_one_name, Profile};
use crate::text::{
    decimal, eq_ignore_ascii_case, law_case_of_ascii_letters, law_numbers_read_as_written,
    law_other_texts_are_no_numbers, parse_unsigned, same_ignoring_ascii_case, split_whitespace,
    str_eq, texts, unsigned, words,
};
use std::path::PathBuf;
use std::time::Duration;
use vstd::prelude::*;

verus! {

/// A file system path of std; it is only carried along.
#[verifier::external_type_specification]
#[verifier::external_body]
pub struct ExPathBuf(std::path::PathBuf);

/// Configuration of the browser.
#[derive(Debug, Clone)]
pub struct ChaserConfig {
    /// Maximum concurrent browser contexts (default: 20)
    pub context_limit: usize,
    /// Request timeout in milliseconds (default: 60000)
    pub timeout_ms: u64,
    /// Stealth profile to use (default: Windows)
    pub profile: Profile,
    /// Whether to defer browser initialization until first use (default: false)
    pub lazy_init: bool,
    /// Path to the browser binary (default: auto-detect)
    pub chrome_path: Option<PathBuf>,
    /// Whether to run in headless mode (default: false)
    pub headless: bool,
    /// Browser viewport width (default: 1920)
    pub viewport_width: u32,
    /// Browser viewport height (default: 1080)
    pub viewport_height: u32,
    /// Extra command-line flags for the browser process, after the built-in ones (default: none)
    pub extra_args: Vec<String>,
    /// Whether to run the browser headed inside a virtual X display, on Linux (default: false)
    pub virtual_display: bool,
}

impl Default for ChaserConfig {
    fn default() -> (r: ChaserConfig)
        ensures
            r.context_limit == 20,
            r.timeout_ms == 60000,
            r.profile == Profile::Windows,
            !r.lazy_init,
            r.chrome_path is None,
            !r.headless,
            r.viewport_width == 1920,
            r.viewport_height == 1080,
            r.extra_args@ == Seq::<String>::empty(),
            !r.virtual_display,
    {
        ChaserConfig {
            context_limit: 20,
            timeout_ms: 60000,
            profile: Profile::Windows,
            lazy_init: false,
            chrome_path: None,
            headless: false,
            viewport_width: 1920,
            viewport_height: 1080,
            extra_args: Vec::new(),
            virtual_display: false,
        }
    }
}

/// The environment variables that configure the browser; `None` for one that is not set.
pub struct ChaserEnv {
    /// `CHASER_CONTEXT_LIMIT`: maximum concurrent contexts
    pub context_limit: Option<String>,
    /// `CHASER_TIMEOUT`: timeout in milliseconds
    pub timeout: Option<String>,
    /// `CHASER_PROFILE`: profile name (windows/linux/macos)
    pub profile: Option<String>,
    /// `CHASER_LAZY_INIT`: enable lazy initialization (true/false)
    pub lazy_init: Option<String>,
    /// `CHROME_BIN`: path to the browser binary
    pub chrome_bin: Option<PathBuf>,
    /// `CHASER_HEADLESS`: run headless (true/false)
    pub headless: Option<String>,
    /// `CHASER_EXTRA_ARGS`: browser flags, separated by white space
    pub extra_args: Option<String>,
    /// `CHASER_VIRTUAL_DISPLAY`: use a virtual display (true/false)
    pub virtual_display: Option<String>,
}

/// Whether a switch is on: `true` in any ASCII case, or `1`.
pub open spec fn is_on(val: Seq<char>) -> bool {
    same_ignoring_ascii_case(val, "true"@) || val == "1"@
}

/// What a switch variable says; off where it is not set.
pub open spec fn switched_on(var: Option<String>) -> bool {
    match var {
        Some(val) => is_on(val@),
        None => false,
    }
}

/// The number that a variable denotes, or the default where it denotes none up to `max`.
pub open spec fn number_or(var: Option<String>, max: nat, default: nat) -> nat {
    match var {
        Some(val) => match unsigned(val@, max) {
            Some(n) => n,
            None => default,
        },
        None => default,
    }
}

fn read_switch(var: &Option<String>) -> (r: bool)
    ensures
        r == switched_on(*var),
{
    match var {
        Some(val) => eq_ignore_ascii_case(val.as_str(), "true") || str_eq(val.as_str(), "1"),
        None => false,
    }
}

fn read_number(var: &Option<String>, max: u64, default: u64) -> (r: u64)
    requires
        default <= max,
    ensures
        r as nat == number_or(*var, max as nat, default as nat),
        r <= max,
{
    match var {
        Some(val) => match parse_unsigned(val.as_str(), max) {
            Some(n) => n,
            None => default,
        },
        None => default,
    }
}

impl ChaserConfig {
    /// The configuration that the environment describes: each variable sets its own field; one
    /// that is not set, or holds no number or profile where one is due, leaves the default.
    pub fn from_env(env: ChaserEnv) -> (r: ChaserConfig)
        ensures
            r.context_limit as nat == number_or(env.context_limit, usize::MAX as nat, 20),
            r.timeout_ms as nat == number_or(env.timeout, u64::MAX as nat, 60000),
            r.profile == (match env.profile {
                Some(val) => match Profile::named(val@) {
                    Some(p) => p,
                    None => Profile::Windows,
                },
                None => Profile::Windows,
            }),
            r.lazy_init == switched_on(env.lazy_init),
            r.chrome_path == env.chrome_bin,
            r.headless == switched_on(env.headless),
            r.viewport_width == 1920,
            r.viewport_height == 1080,
            texts(r.extra_args@) == (match env.extra_args {
                Some(val) => words(val@),
                None => Seq::empty(),
            }),
            r.virtual_display == switched_on(env.virtual_display),
            env.context_limit is None ==> r.context_limit == 20,
            env.timeout is None ==> r.timeout_ms == 60000,
            r.profile == Profile::Linux <==> env.profile is Some && env.profile->0@ == "linux"@,
            r.profile == Profile::Macos <==> env.profile is Some && env.profile->0@ == "macos"@,
            env.extra_args is None ==> r.extra_args@.len() == 0,
            env.lazy_init is None ==> !r.lazy_init,
            env.headless is None ==> !r.headless,
            env.virtual_display is None ==> !r.virtual_display,
    {
        proof {
            if env.profile is Some {
                law_profiles_have_one_name(env.profile->0@);
            }
        }
        let mut config = ChaserConfig::default();
        config.context_limit = read_number(&env.context_limit, usize::MAX as u64, 20) as usize;
        config.timeout_ms = read_number(&env.timeout, u64::MAX, 60000);
        if let Some(val) = &env.profile {
            if let Some(profile) = Profile::parse(val.as_str()) {
                config.profile = profile;
            }
        }
        config.lazy_init = read_switch(&env.lazy_init);
        config.headless = read_switch(&env.headless);
        match &env.extra_args {
            Some(val) => {
                config.extra_args = split_whitespace(val.as_str());
            },
            None => {
                assert(texts(config.extra_args@) =~= Seq::<Seq<char>>::empty());
            },
        }
        config.virtual_display = read_switch(&env.virtual_display);
        config.chrome_path = env.chrome_bin;
        config
    }

    /// Builder method: set context limit
    pub fn with_context_limit(self, limit: usize) -> (r: ChaserConfig)
        ensures
            r == (ChaserConfig { context_limit: limit, ..self }),
    {
        let mut config = self;
        config.context_limit = limit;
        config
    }

    /// Builder method: set timeout
    pub fn with_timeout_ms(self, timeout: u64) -> (r: ChaserConfig)
        ensures
            r == (ChaserConfig { timeout_ms: timeout, ..self }),
    {
        let mut config = self;
        config.timeout_ms = timeout;
        config
    }

    /// Builder method: set timeout from a span, in whole milliseconds modulo 2^64
    pub fn with_timeout(self, timeout: Duration) -> (r: ChaserConfig)
        ensures
            r == (ChaserConfig {
                timeout_ms: ((duration_nanos(timeout) / 1_000_000) % 0x1_0000_0000_0000_0000) as u64,
                ..self
            }),
    {
        let mut config = self;
        config.timeout_ms = low_64_bits(timeout.as_millis());
        config
    }

    /// Builder method: set profile
    pub fn with_profile(self, profile: Profile) -> (r: ChaserConfig)
        ensures
            r == (ChaserConfig { profile, ..self }),
    {
        let mut config = self;
        config.profile = profile;
        config
    }

    /// Builder method: enable lazy initialization
    pub fn with_lazy_init(self, lazy: bool) -> (r: ChaserConfig)
        ensures
            r == (ChaserConfig { lazy_init: lazy, ..self }),
    {
        let mut config = self;
        config.lazy_init = lazy;
        config
    }

    /// Builder method: set the path of the browser binary
    pub fn with_chrome_path(self, path: PathBuf) -> (r: ChaserConfig)
        ensures
            r == (ChaserConfig { chrome_path: Some(path), ..self }),
    {
        let mut config = self;
        config.chrome_path = Some(path);
        config
    }

    /// Builder method: set headless mode
    pub fn with_headless(self, headless: bool) -> (r: ChaserConfig)
        ensures
            r == (ChaserConfig { headless, ..self }),
    {
        let mut config = self;
        config.headless = headless;
        config
    }

    /// Builder method: set viewport size
    pub fn with_viewport(self, width: u32, height: u32) -> (r: ChaserConfig)
        ensures
            r == (ChaserConfig { viewport_width: width, viewport_height: height, ..self }),
    {
        let mut config = self;
        config.viewport_width = width;
        config.viewport_height = height;
        config
    }

    /// Builder method: replace the extra flags with the given list.
    /// Use [`Self::add_extra_arg`] to append a single flag instead.
    pub fn with_extra_args(self, args: Vec<String>) -> (r: ChaserConfig)
        ensures
            r == (ChaserConfig { extra_args: args, ..self }),
    {
        let mut config = self;
        config.extra_args = args;
        config
    }

    /// Builder method: append a single flag to the existing extras.
    pub fn add_extra_arg(self, arg: String) -> (r: ChaserConfig)
        ensures
            r.extra_args@ == self.extra_args@.push(arg),
            r == (ChaserConfig { extra_args: r.extra_args, ..self }),
    {
        let mut config = self;
        config.extra_args.push(arg);
        config
    }

    /// Builder method: run the browser headed in a virtual X display, on Linux
    pub fn with_virtual_display(self, enabled: bool) -> (r: ChaserConfig)
        ensures
            r == (ChaserConfig { virtual_display: enabled, ..self }),
    {
        let mut config = self;
        config.virtual_display = enabled;
        config
    }

    /// The timeout as a span
    pub fn timeout(&self) -> (r: Duration)
        ensures
            duration_nanos(r) == self.timeout_ms as nat * 1_000_000,
    {
        Duration::from_millis(self.timeout_ms)
    }
}

/// A switch is on exactly if it says `1`, or `true` with each letter in either case.
pub proof fn law_switches(val: String)
    ensures
        !switched_on(None),
        switched_on(Some(val)) <==> {
            ||| val@ == "1"@
            ||| {
                &&& val@.len() == 4
                &&& val@[0] == 't' || val@[0] == 'T'
                &&& val@[1] == 'r' || val@[1] == 'R'
                &&& val@[2] == 'u' || val@[2] == 'U'
                &&& val@[3] == 'e' || val@[3] == 'E'
            }
        },
{
    reveal_strlit("true");
    let v = val@;
    let t = "true"@;
    law_case_of_ascii_letters(v, t);
    assert(t.len() == 4 && t[0] == 't' && t[1] == 'r' && t[2] == 'u' && t[3] == 'e');
    if same_ignoring_ascii_case(v, t) {
        assert(v[0] == t[0] || (v[0] as u32) + 32 == (t[0] as u32));
        assert(v[1] == t[1] || (v[1] as u32) + 32 == (t[1] as u32));
        assert(v[2] == t[2] || (v[2] as u32) + 32 == (t[2] as u32));
        assert(v[3] == t[3] || (v[3] as u32) + 32 == (t[3] as u32));
    }
}

/// A number that is written down is taken as written up to the bound; beyond it, and where the
/// variable is not set or holds no number, the default holds.
pub proof fn law_numbers_are_taken_as_written(var: String, n: nat, i: int, max: nat, default: nat)
    ensures
        number_or(None, max, default) == default,
        var@ == decimal(n) && n <= max ==> number_or(Some(var), max, default) == n,
        var@ == decimal(n) && n > max ==> number_or(Some(var), max, default) == default,
        0 <= i < var@.len() && !(48 <= (var@[i] as u32) <= 57) && (i > 0 || var@[0] != '+')
            ==> number_or(Some(var), max, default) == default,
        var@.len() == 0 ==> number_or(Some(var), max, default) == default,
{
    law_numbers_read_as_written(n, max);
    if 0 <= i < var@.len() && !(48 <= (var@[i] as u32) <= 57) && (i > 0 || var@[0] != '+') {
        law_other_texts_are_no_numbers(var@, max, i);
    }
}

} // verus!
