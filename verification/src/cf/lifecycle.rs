//! The life of the browser: from configuration over start to shutdown.
use crate::cf::config::ChaserConfig;
use crate::error::{ChaserError, ChaserResult};
use vstd::prelude::*;

verus! {

/// A configured browser of handle type `B`, running or not.
pub struct ChaserCF<B> {
    config: ChaserConfig,
    browser: Option<B>,
    initialized: bool,
}

impl<B> ChaserCF<B> {
    /// The configuration.
    pub closed spec fn configured(self) -> ChaserConfig {
        self.config
    }

    /// The running browser.
    pub closed spec fn running(self) -> Option<B> {
        self.browser
    }

    /// Whether the browser was started and not shut down since.
    pub closed spec fn started(self) -> bool {
        self.initialized
    }

    /// It counts as started exactly while there is a browser.
    pub open spec fn wf(self) -> bool {
        self.started() <==> self.running() is Some
    }

    /// Takes a configuration; no browser runs yet.
    pub fn new(config: ChaserConfig) -> (r: ChaserCF<B>)
        ensures
            r.wf(),
            r.configured() == config,
            r.running() is None,
    {
        ChaserCF { config, browser: None, initialized: false }
    }

    /// Whether the browser is to be started at once rather than on first use.
    pub fn starts_at_once(&self) -> (r: bool)
        ensures
            r == !self.configured().lazy_init,
    {
        !self.config.lazy_init
    }

    /// Whether the browser has yet to be started.
    pub fn needs_init(&self) -> (r: bool)
        ensures
            r == !self.started(),
    {
        !self.initialized
    }

    /// Takes over the browser that was started. One that already runs stays, and the new one
    /// is handed back.
    pub fn init(&mut self, browser: B) -> (r: Option<B>)
        requires
            old(self).wf(),
        ensures
            final(self).wf(),
            final(self).started(),
            final(self).configured() == old(self).configured(),
            old(self).started() ==> final(self).running() == old(self).running() && r == Some(
                browser,
            ),
            !old(self).started() ==> final(self).running() == Some(browser) && r is None,
    {
        if self.initialized {
            return Some(browser);
        }
        self.browser = Some(browser);
        self.initialized = true;
        None
    }

    /// The running browser.
    pub fn browser(&self) -> (r: ChaserResult<&B>)
        ensures
            match r {
                Ok(b) => self.running() == Some(*b),
                Err(e) => self.running() is None && e == ChaserError::NotInitialized,
            },
    {
        match &self.browser {
            Some(b) => Ok(b),
            None => Err(ChaserError::NotInitialized),
        }
    }

    /// Lets go of the browser, for the caller to close it.
    pub fn shutdown(&mut self) -> (r: Option<B>)
        ensures
            final(self).wf(),
            !final(self).started(),
            final(self).running() is None,
            final(self).configured() == old(self).configured(),
            r == old(self).running(),
    {
        let browser = self.browser.take();
        self.initialized = false;
        browser
    }

    /// Whether the browser is started and, as its own report has it, healthy.
    pub fn is_ready(&self, healthy: bool) -> (r: bool)
        ensures
            r == (self.started() && self.running() is Some && healthy),
    {
        if !self.initialized {
            return false;
        }
        self.browser.is_some() && healthy
    }

    /// The configuration.
    pub fn config(&self) -> (r: &ChaserConfig)
        ensures
            *r == self.configured(),
    {
        &self.config
    }

    /// The error of an operation that outlasted the configured timeout.
    pub fn timed_out(&self) -> (r: ChaserError)
        ensures
            r == ChaserError::Timeout(self.configured().timeout_ms),
    {
        ChaserError::Timeout(self.config.timeout_ms)
    }
}

} // verus!
