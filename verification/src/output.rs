//! Fan-out of decoded shreds to pluggable consumers.
//!
//! The embedding application supplies the plugins; the runner owns them in
//! registration order and drives their lifecycle: start all, dispatch each
//! decoded shred to all, stop all. A plugin's failure is isolated: it is
//! recorded and reported, and never keeps a later plugin from being
//! started, served, or stopped, nor the ingestion loop from going on.

use vstd::prelude::*;
use crate::shred::DecodedShred;

verus! {

/// What a failing plugin reports back.
#[derive(Debug)]
pub struct PluginError {
    /// The reporting plugin's name.
    pub plugin: String,
    /// The plugin's own account of the failure.
    pub message: String,
}

/// An output consumer of decoded shreds. Implementations come from the
/// embedding application; the runner only promises in which order and
/// under which failure policy these methods are called.
pub trait OutputPlugin {
    /// Brings the plugin up before any shred is dispatched.
    fn start(&mut self) -> Result<(), PluginError>;

    /// Consumes one decoded shred.
    fn handle(&mut self, shred: &DecodedShred) -> Result<(), PluginError>;

    /// Tears the plugin down; called even after earlier failures.
    fn stop(&mut self) -> Result<(), PluginError>;

    /// The plugin's name, for failure reports.
    fn name(&self) -> String;
}

/// Owns the registered plugins, in registration order.
pub struct PluginRunner<P: OutputPlugin> {
    pub plugins: Vec<P>,
}

/// Mutably borrows the plugin at `i`.
fn plugin_at<P: OutputPlugin>(plugins: &mut Vec<P>, i: usize) -> (p: &mut P)
    requires
        i < old(plugins)@.len(),
    ensures
        *p == old(plugins)@[i as int],
        final(plugins)@ == old(plugins)@.update(i as int, *final(p)),
{
    &mut plugins[i]
}

impl<P: OutputPlugin> PluginRunner<P> {
    /// A runner with no plugins yet.
    pub fn new() -> (r: Self)
        ensures
            r.plugins@.len() == 0,
    {
        PluginRunner { plugins: Vec::new() }
    }

    /// Registers one more plugin, behind all earlier ones.
    pub fn add_plugin(&mut self, plugin: P)
        ensures
            final(self).plugins@ == old(self).plugins@.push(plugin),
    {
        self.plugins.push(plugin);
    }

    /// How many plugins are registered.
    pub fn plugin_count(&self) -> (n: usize)
        ensures
            n == self.plugins@.len(),
    {
        self.plugins.len()
    }

    /// Starts every plugin, in registration order. Every start is
    /// attempted even after a failure, so no failure hides a later one;
    /// the first failure is then returned, because a half-started pipeline
    /// must not go on to ingestion. Only a plugin can fail this: with no
    /// plugins registered, success is owed.
    pub fn start_all(&mut self) -> (r: Result<(), PluginError>)
        ensures
            final(self).plugins@.len() == old(self).plugins@.len(),
            old(self).plugins@.len() == 0 ==> r is Ok,
    {
        let mut first_err: Option<PluginError> = None;
        let n = self.plugins.len();
        let mut i: usize = 0;
        while i < n
            invariant
                i <= n,
                self.plugins@.len() == n,
                first_err is Some ==> n > 0,
            decreases n - i,
        {
            let p = plugin_at(&mut self.plugins, i);
            match p.start() {
                Ok(_) => {},
                Err(e) => {
                    if first_err.is_none() {
                        first_err = Some(e);
                    }
                },
            }
            i += 1;
        }
        match first_err {
            None => Ok(()),
            Some(e) => Err(e),
        }
    }

    /// Delivers one decoded shred to every plugin, in registration order.
    /// A plugin's failure is recorded and does not keep the shred from the
    /// plugins after it. Returns one entry per plugin, in the same order:
    /// whether that plugin accepted the shred.
    pub fn dispatch(&mut self, shred: &DecodedShred) -> (delivered: Vec<bool>)
        ensures
            final(self).plugins@.len() == old(self).plugins@.len(),
            delivered@.len() == old(self).plugins@.len(),
    {
        let mut delivered: Vec<bool> = Vec::new();
        let n = self.plugins.len();
        let mut i: usize = 0;
        while i < n
            invariant
                i <= n,
                self.plugins@.len() == n,
                delivered@.len() == i,
            decreases n - i,
        {
            let p = plugin_at(&mut self.plugins, i);
            let ok = p.handle(shred).is_ok();
            delivered.push(ok);
            i += 1;
        }
        delivered
    }

    /// Stops every plugin, in registration order, best-effort: every stop
    /// is attempted whatever the earlier ones did, and the first failure
    /// is collected and returned for reporting. Only a plugin can fail
    /// this: with no plugins registered, success is owed.
    pub fn stop_all(&mut self) -> (r: Result<(), PluginError>)
        ensures
            final(self).plugins@.len() == old(self).plugins@.len(),
            old(self).plugins@.len() == 0 ==> r is Ok,
    {
        let mut first_err: Option<PluginError> = None;
        let n = self.plugins.len();
        let mut i: usize = 0;
        while i < n
            invariant
                i <= n,
                self.plugins@.len() == n,
                first_err is Some ==> n > 0,
            decreases n - i,
        {
            let p = plugin_at(&mut self.plugins, i);
            match p.stop() {
                Ok(_) => {},
                Err(e) => {
                    if first_err.is_none() {
                        first_err = Some(e);
                    }
                },
            }
            i += 1;
        }
        match first_err {
            None => Ok(()),
            Some(e) => Err(e),
        }
    }
}

} // verus!
