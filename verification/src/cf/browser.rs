//! Launch and bookkeeping of the browser.
use crate::cf::config::ChaserConfig;
use crate::error::ChaserError;
use crate::models::ContextProxy;
use crate::text::{chars_of, concat, concat3, decimal, decimal_string, str_eq, string_of, texts};
use vstd::prelude::*;

verus! {

/// A flag without its leading dashes.
pub open spec fn normalized(raw: Seq<char>) -> Seq<char>
    decreases raw.len(),
{
    if raw.len() > 0 && raw[0] == '-' {
        normalized(raw.skip(1))
    } else {
        raw
    }
}

/// Strips the leading dashes of a browser flag, however many there are.
///
/// The browser driver keeps flags without their dashes and writes `--` before each of them
/// itself; a flag handed over with dashes would come out as `----flag`, which the browser
/// ignores without a word.
pub fn normalize_chrome_flag(raw: &str) -> (r: String)
    ensures
        r@ == normalized(raw@),
{
    let chars = chars_of(raw);
    let mut i: usize = 0;
    assert(raw@.skip(0) =~= raw@);
    while i < chars.len() && chars[i] == '-'
        invariant
            chars@ == raw@,
            i <= chars@.len(),
            normalized(raw@.skip(i as int)) == normalized(raw@),
        decreases chars@.len() - i,
    {
        assert(raw@.skip(i as int).skip(1) =~= raw@.skip(i + 1));
        i += 1;
    }
    assert(chars@.subrange(i as int, chars@.len() as int) =~= raw@.skip(i as int));
    string_of(&chars, i, chars.len())
}

/// A normalized flag begins with no dash.
pub proof fn law_normalized_has_no_leading_dash(raw: Seq<char>)
    ensures
        normalized(raw).len() > 0 ==> normalized(raw)[0] != '-',
    decreases raw.len(),
{
    if raw.len() > 0 && raw[0] == '-' {
        law_normalized_has_no_leading_dash(raw.skip(1));
    }
}

/// Normalizing a second time changes nothing.
pub proof fn law_normalize_is_idempotent(raw: Seq<char>)
    ensures
        normalized(normalized(raw)) == normalized(raw),
{
    law_normalized_has_no_leading_dash(raw);
}

/// A flag normalizes to the same text with any number of dashes before it, so that the form
/// with none, one, two or more of them all name the same flag.
pub proof fn law_dashes_do_not_matter(dashes: nat, flag: Seq<char>)
    ensures
        normalized(Seq::new(dashes, |i: int| '-') + flag) == normalized(flag),
    decreases dashes,
{
    let s = Seq::new(dashes, |i: int| '-') + flag;
    if dashes == 0 {
        assert(s =~= flag);
    } else {
        assert(s.skip(1) =~= Seq::new((dashes - 1) as nat, |i: int| '-') + flag);
        law_dashes_do_not_matter((dashes - 1) as nat, flag);
    }
}

/// How to start the browser.
pub struct LaunchPlan {
    /// Flags without their leading dashes, in order.
    pub args: Vec<String>,
    /// Whether the browser runs headless.
    pub headless: bool,
    /// Whether a virtual display is started first.
    pub virtual_display: bool,
}

/// The flags that every launch sets.
pub open spec fn baseline_args() -> Seq<Seq<char>> {
    seq![
        normalized("--disable-blink-features=AutomationControlled"@),
        normalized("--disable-infobars"@),
    ]
}

/// The flags of a headless launch on Linux: a full-sized window, and no WebGL.
pub open spec fn headless_args() -> Seq<Seq<char>> {
    seq![
        normalized("--window-size=1920,1080"@),
        normalized("--disable-webgl"@),
        normalized("--disable-webgl2"@),
    ]
}

/// All flags of a launch: the baseline, those of a headless launch on Linux, the extras.
pub open spec fn launch_args(headless_on_linux: bool, extra: Seq<Seq<char>>) -> Seq<Seq<char>> {
    baseline_args() + (if headless_on_linux {
        headless_args()
    } else {
        Seq::empty()
    }) + extra.map_values(|a: Seq<char>| normalized(a))
}

/// Decides how to start the browser. A virtual display, which only Linux has, implies a headed
/// browser: the headless setting is then ignored.
pub fn launch_plan(config: &ChaserConfig, on_linux: bool) -> (r: LaunchPlan)
    ensures
        texts(r.args@) == launch_args(
            on_linux && config.headless && !config.virtual_display,
            texts(config.extra_args@),
        ),
        r.headless == (config.headless && !(on_linux && config.virtual_display)),
        r.virtual_display == (on_linux && config.virtual_display),
{
    let mut args: Vec<String> = Vec::new();
    args.push(normalize_chrome_flag("--disable-blink-features=AutomationControlled"));
    args.push(normalize_chrome_flag("--disable-infobars"));
    let headless_on_linux = on_linux && config.headless && !config.virtual_display;
    if headless_on_linux {
        args.push(normalize_chrome_flag("--window-size=1920,1080"));
        args.push(normalize_chrome_flag("--disable-webgl"));
        args.push(normalize_chrome_flag("--disable-webgl2"));
    }
    let ghost extra = texts(config.extra_args@);
    assert(texts(args@) =~= launch_args(headless_on_linux, extra.take(0)));
    let mut i: usize = 0;
    while i < config.extra_args.len()
        invariant
            i <= config.extra_args@.len(),
            extra == texts(config.extra_args@),
            texts(args@) == launch_args(headless_on_linux, extra.take(i as int)),
        decreases config.extra_args@.len() - i,
    {
        let ghost before = args@;
        let arg = normalize_chrome_flag(config.extra_args[i].as_str());
        args.push(arg);
        assert(extra.take(i + 1) =~= extra.take(i as int).push(extra[i as int]));
        assert(texts(args@) =~= texts(before).push(arg@));
        assert(texts(args@) =~= launch_args(headless_on_linux, extra.take(i + 1)));
        i += 1;
    }
    assert(extra.take(extra.len() as int) =~= extra);
    LaunchPlan {
        args,
        headless: config.headless && !(on_linux && config.virtual_display),
        virtual_display: on_linux && config.virtual_display,
    }
}

/// No flag of a launch begins with a dash, whatever the extras look like, so that none of them
/// reaches the browser with too many.
pub proof fn law_launch_flags_have_no_leading_dash(
    headless_on_linux: bool,
    extra: Seq<Seq<char>>,
    i: int,
)
    requires
        0 <= i < launch_args(headless_on_linux, extra).len(),
    ensures
        ({
            let flag = launch_args(headless_on_linux, extra)[i];
            flag.len() > 0 ==> flag[0] != '-'
        }),
{
    law_normalized_has_no_leading_dash("--disable-blink-features=AutomationControlled"@);
    law_normalized_has_no_leading_dash("--disable-infobars"@);
    law_normalized_has_no_leading_dash("--window-size=1920,1080"@);
    law_normalized_has_no_leading_dash("--disable-webgl"@);
    law_normalized_has_no_leading_dash("--disable-webgl2"@);
    let built_in = launch_args(headless_on_linux, Seq::empty()).len();
    if i >= built_in {
        law_normalized_has_no_leading_dash(extra[i - built_in]);
    }
}

/// How long the virtual display gets to open its socket, in milliseconds.
pub const DISPLAY_SETTLE_MS: u64 = 400;

/// The name of an X display.
pub fn display_name(display: u32) -> (r: String)
    ensures
        r@ == ":"@ + decimal(display as nat),
{
    concat(":", decimal_string(display as u128).as_str())
}

/// The arguments that start a virtual display under that number.
pub fn xvfb_args(display: u32) -> (r: Vec<String>)
    ensures
        texts(r@) == seq![
            ":"@ + decimal(display as nat),
            "-screen"@,
            "0"@,
            "1920x1080x24"@,
            "-ac"@,
            "+extension"@,
            "GLX"@,
            "+render"@,
            "-noreset"@,
        ],
{
    let mut r: Vec<String> = Vec::new();
    r.push(display_name(display));
    r.push("-screen".to_owned());
    r.push("0".to_owned());
    r.push("1920x1080x24".to_owned());
    r.push("-ac".to_owned());
    r.push("+extension".to_owned());
    r.push("GLX".to_owned());
    r.push("+render".to_owned());
    r.push("-noreset".to_owned());
    r
}

/// The error of a virtual display that does not start.
pub fn xvfb_failure(cause: &str) -> (r: ChaserError)
    ensures
        r is InitFailed,
        r->InitFailed_0@ == "Xvfb: "@ + cause@ + ". Is xvfb installed? (apt install xvfb)"@,
{
    ChaserError::InitFailed(concat3("Xvfb: ", cause, ". Is xvfb installed? (apt install xvfb)"))
}

fn is_listed(list: &Vec<u32>, n: u32) -> (r: bool)
    ensures
        r == list@.contains(n),
{
    let mut i: usize = 0;
    while i < list.len()
        invariant
            i <= list@.len(),
            forall|j: int| 0 <= j < i ==> list@[j] != n,
        decreases list@.len() - i,
    {
        if list[i] == n {
            return true;
        }
        i += 1;
    }
    false
}

/// The first display number that is tried.
pub const FIRST_DISPLAY: u32 = 99;

/// The file that claims a display number.
pub fn display_lock(display: u32) -> (r: String)
    ensures
        r@ == "/tmp/.X"@ + decimal(display as nat) + "-lock"@,
{
    concat3("/tmp/.X", decimal_string(display as u128).as_str(), "-lock")
}

/// The lowest X display number from `FIRST_DISPLAY` on that is not among the locked ones; none
/// where all numbers are.
pub fn find_free_display(locked: &Vec<u32>) -> (r: Option<u32>)
    ensures
        match r {
            Some(n) => {
                &&& n >= FIRST_DISPLAY
                &&& n >= 99
                &&& forall|m: u32| 99 <= m < n ==> locked@.contains(m)
                &&& !locked@.contains(n)
                &&& forall|m: u32| FIRST_DISPLAY <= m < n ==> locked@.contains(m)
            },
            None => forall|m: u32| FIRST_DISPLAY <= m ==> locked@.contains(m),
        },
        r is None ==> forall|m: u32| 99 <= m ==> #[trigger] locked@.contains(m),
{
    let mut n: u32 = FIRST_DISPLAY;
    while n < u32::MAX
        invariant
            FIRST_DISPLAY <= n,
            forall|m: u32| FIRST_DISPLAY <= m < n ==> locked@.contains(m),
        decreases u32::MAX - n,
    {
        if !is_listed(locked, n) {
            return Some(n);
        }
        n += 1;
    }
    if is_listed(locked, n) {
        None
    } else {
        Some(n)
    }
}

/// Whether a freshly opened page still has to be sent somewhere.
pub fn needs_navigation(url: &str) -> (r: bool)
    ensures
        r == (url@ != "about:blank"@),
{
    !str_eq(url, "about:blank")
}

/// The proxy address of a new browser context; without a proxy no context is made.
pub fn context_proxy_url(proxy: Option<&ContextProxy>) -> (r: Option<String>)
    ensures
        match (proxy, r) {
            (Some(p), Some(u)) => u@ == "http://"@ + p.host@ + ":"@ + decimal(p.port as nat),
            (None, None) => true,
            _ => false,
        },
{
    match proxy {
        Some(p) => Some(p.to_url()),
        None => None,
    }
}

/// The right to one browser context.
pub struct ContextPermit {
    held: bool,
}

/// The running browser's bookkeeping: how many contexts are out, how many may be, and whether
/// the browser still answers.
pub struct BrowserManager {
    active: usize,
    max: usize,
    healthy: bool,
}

impl BrowserManager {
    /// Contexts in use.
    pub closed spec fn active(self) -> usize {
        self.active
    }

    /// Contexts allowed.
    pub closed spec fn max(self) -> usize {
        self.max
    }

    /// Whether the browser answers.
    pub closed spec fn healthy(self) -> bool {
        self.healthy
    }

    /// No more contexts are in use than are allowed.
    pub open spec fn wf(self) -> bool {
        self.active() <= self.max()
    }

    /// The bookkeeping of a browser that just started.
    pub fn new(config: &ChaserConfig) -> (r: BrowserManager)
        ensures
            r.wf(),
            r.active() == 0,
            r.max() == config.context_limit,
            r.healthy(),
    {
        BrowserManager { active: 0, max: config.context_limit, healthy: true }
    }

    pub fn is_healthy(&self) -> (r: bool)
        ensures
            r == self.healthy(),
    {
        self.healthy
    }

    pub fn active_contexts(&self) -> (r: usize)
        ensures
            r == self.active(),
    {
        self.active
    }

    pub fn max_contexts(&self) -> (r: usize)
        ensures
            r == self.max(),
    {
        self.max
    }

    /// Takes a permit if one is left.
    pub fn try_acquire_permit(&mut self) -> (r: Option<ContextPermit>)
        requires
            old(self).wf(),
        ensures
            final(self).wf(),
            r is Some <==> old(self).active() < old(self).max(),
            final(self).active() == old(self).active() + (if r is Some {
                1int
            } else {
                0
            }),
            final(self).max() == old(self).max(),
            final(self).healthy() == old(self).healthy(),
    {
        if self.active < self.max {
            self.active = self.active + 1;
            Some(ContextPermit { held: true })
        } else {
            None
        }
    }

    /// Gives a permit back.
    pub fn release(&mut self, permit: ContextPermit)
        requires
            old(self).wf(),
            old(self).active() > 0,
        ensures
            final(self).wf(),
            final(self).active() == old(self).active() - 1,
            final(self).max() == old(self).max(),
            final(self).healthy() == old(self).healthy(),
    {
        self.active = self.active - 1;
    }

    /// The browser's event stream ended, or the browser was shut down.
    pub fn shutdown(&mut self)
        ensures
            !final(self).healthy(),
            final(self).active() == old(self).active(),
            final(self).max() == old(self).max(),
    {
        self.healthy = false;
    }
}

/// Normalizing takes the leading dashes away and nothing else.
pub proof fn law_normalizing_takes_dashes_only(raw: Seq<char>)
    ensures
        normalized(raw).len() <= raw.len(),
        raw.skip(raw.len() - normalized(raw).len()) == normalized(raw),
        forall|i: int| 0 <= i < raw.len() - normalized(raw).len() ==> #[trigger] raw[i] == '-',
        normalized(raw).len() > 0 ==> normalized(raw)[0] != '-',
    decreases raw.len(),
{
    if raw.len() > 0 && raw[0] == '-' {
        let rest = raw.skip(1);
        law_normalizing_takes_dashes_only(rest);
        let n = normalized(raw).len();
        assert(raw.skip(raw.len() - n) =~= rest.skip(rest.len() - n));
        assert forall|i: int| 0 <= i < raw.len() - n implies #[trigger] raw[i] == '-' by {
            if i > 0 {
                assert(raw[i] == rest[i - 1]);
            }
        }
    } else {
        assert(raw.skip(0) =~= raw);
    }
}

/// Every launch hides that the browser is driven; a headless one on Linux also sets the window
/// and turns WebGL off. The extras follow, one by one, each without its leading dashes.
pub proof fn law_launch_flags(headless_on_linux: bool, extra: Seq<Seq<char>>, k: int)
    ensures
        ({
            let args = launch_args(headless_on_linux, extra);
            let first: int = if headless_on_linux {
                5
            } else {
                2
            };
            &&& args.len() == first + extra.len()
            &&& args[0] == "disable-blink-features=AutomationControlled"@
            &&& args[1] == "disable-infobars"@
            &&& headless_on_linux ==> {
                &&& args[2] == "window-size=1920,1080"@
                &&& args[3] == "disable-webgl"@
                &&& args[4] == "disable-webgl2"@
            }
            &&& 0 <= k < extra.len() ==> args[first + k] == normalized(extra[k])
        }),
{
    reveal_strlit("--disable-blink-features=AutomationControlled");
    reveal_strlit("--disable-infobars");
    reveal_strlit("--window-size=1920,1080");
    reveal_strlit("--disable-webgl");
    reveal_strlit("--disable-webgl2");
    reveal_strlit("disable-blink-features=AutomationControlled");
    reveal_strlit("disable-infobars");
    reveal_strlit("window-size=1920,1080");
    reveal_strlit("disable-webgl");
    reveal_strlit("disable-webgl2");
    lemma_two_dashes("--disable-blink-features=AutomationControlled"@);
    lemma_two_dashes("--disable-infobars"@);
    lemma_two_dashes("--window-size=1920,1080"@);
    lemma_two_dashes("--disable-webgl"@);
    lemma_two_dashes("--disable-webgl2"@);
    assert("--disable-blink-features=AutomationControlled"@.skip(2)
        =~= "disable-blink-features=AutomationControlled"@);
    assert("--disable-infobars"@.skip(2) =~= "disable-infobars"@);
    assert("--window-size=1920,1080"@.skip(2) =~= "window-size=1920,1080"@);
    assert("--disable-webgl"@.skip(2) =~= "disable-webgl"@);
    assert("--disable-webgl2"@.skip(2) =~= "disable-webgl2"@);
}

proof fn lemma_two_dashes(raw: Seq<char>)
    requires
        raw.len() > 2,
        raw[0] == '-',
        raw[1] == '-',
        raw[2] != '-',
    ensures
        normalized(raw) == raw.skip(2),
{
    reveal_with_fuel(normalized, 3);
    assert(raw.skip(1).skip(1) =~= raw.skip(2));
}

/// The display that is taken is free, and no number from 99 on before it is.
pub proof fn law_first_free_display_is_taken(locked: &Vec<u32>, taken: u32, n: u32)
    requires
        call_ensures(find_free_display, (locked,), Some(taken)),
        n >= 99,
        !locked@.contains(n),
    ensures
        99 <= taken <= n,
        !locked@.contains(taken),
{
}

} // verus!
