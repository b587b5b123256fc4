//! The context handed to overlays: controller, service, aircraft data,
//! preview flag and configuration access.
use std::sync::Arc;
use vstd::prelude::*;
use crate::blkx::Blkx;
use crate::config_api::ConfigProvider;
use crate::shared::{share, share_opt};
use crate::text::{eq_ignore_ascii_case, eq_ignore_ascii_case_spec, opt_view};

verus! {

/// What the context needs of the controller: its service and its
/// configuration service.
pub trait ControllerRef<S, P: ?Sized = dyn ConfigProvider> {
    /// The controller's service, when it has one.
    fn service(&self) -> Option<Arc<S>>;

    /// The controller's configuration service; a controller always has one.
    fn get_config_service(&self) -> (r: Option<Arc<P>>)
        ensures
            r is Some,
    ;
}

/// Everything an overlay may need, passed as one value.
pub struct OverlayContext<TC, S, P: ?Sized = dyn ConfigProvider> {
    pub tc: Option<Arc<TC>>,
    pub s: Option<Arc<S>>,
    pub blkx: Option<Blkx>,
    pub is_preview_mode: bool,
    /// Configuration access, independent of the controller.
    pub config_provider: Option<Arc<P>>,
}

/// The value of `Boolean.parseBoolean`: true exactly for `true` in any ASCII case.
pub open spec fn parse_boolean_spec(value: Option<Seq<char>>) -> bool {
    match value {
        Some(v) => eq_ignore_ascii_case_spec(v, "true"@),
        None => false,
    }
}

/// Reads a configuration value as a boolean: true exactly when it is `true`
/// in any ASCII case (no trimming); false when it is absent.
pub fn parse_boolean(value: Option<String>) -> (r: bool)
    ensures
        r == parse_boolean_spec(opt_view(value)),
{
    match value {
        Some(v) => eq_ignore_ascii_case(v.as_str(), "true"),
        None => false,
    }
}

impl<TC, S, P: ?Sized + ConfigProvider> OverlayContext<TC, S, P> {
    /// The configuration value under `key` read as a boolean (see [`parse_boolean`]).
    pub fn get_bool(&self, key: &str) -> (r: bool)
        requires
            self.config_provider is Some,
        ensures
            exists|v: Option<String>|
                call_ensures(P::get_config, (&*self.config_provider->0, key), v) && r
                    == parse_boolean_spec(opt_view(v)),
    {
        let value = match &self.config_provider {
            Some(cp) => cp.get_config(key),
            None => None,
        };
        parse_boolean(value)
    }

    /// The configuration value under `key`, as the provider returns it.
    pub fn get_string(&self, key: &str) -> (r: Option<String>)
        requires
            self.config_provider is Some,
        ensures
            call_ensures(P::get_config, (&*self.config_provider->0, key), r),
    {
        match &self.config_provider {
            Some(cp) => cp.get_config(key),
            None => None,
        }
    }

    /// True when aircraft data is present and marks a jet.
    pub fn is_jet(&self) -> (r: bool)
        ensures
            r == (self.blkx matches Some(b) && b.is_jet),
    {
        match &self.blkx {
            Some(b) => b.is_jet,
            None => false,
        }
    }

    /// Debug mode is never on.
    pub fn is_debug(&self) -> (r: bool)
        ensures
            !r,
    {
        false
    }

    /// A builder with every setting at its default.
    pub fn builder() -> (r: Builder<TC, S, P>)
        ensures
            r.is_empty(),
    {
        Builder::new()
    }

    /// The context of game mode: controller, its service and configuration
    /// service, and the aircraft data `blkx` of the current flight model.
    pub fn for_game_mode(blkx: Option<Blkx>, tc: Arc<TC>) -> (r: OverlayContext<TC, S, P>) where
        TC: ControllerRef<S, P>,

        ensures
            r.tc == Some(tc),
            call_ensures(TC::service, (&*tc,), r.s),
            r.blkx == blkx,
            !r.is_preview_mode,
            call_ensures(TC::get_config_service, (&*tc,), r.config_provider),
            r.config_provider is Some,
    {
        Self::wired(blkx, tc, false)
    }

    /// The context of preview mode: as [`Self::for_game_mode`], in preview.
    pub fn for_preview_mode(blkx: Option<Blkx>, tc: Arc<TC>) -> (r: OverlayContext<TC, S, P>) where
        TC: ControllerRef<S, P>,

        ensures
            r.tc == Some(tc),
            call_ensures(TC::service, (&*tc,), r.s),
            r.blkx == blkx,
            r.is_preview_mode,
            call_ensures(TC::get_config_service, (&*tc,), r.config_provider),
            r.config_provider is Some,
    {
        Self::wired(blkx, tc, true)
    }

    fn wired(blkx: Option<Blkx>, tc: Arc<TC>, preview: bool) -> (r: OverlayContext<TC, S, P>) where
        TC: ControllerRef<S, P>,

        ensures
            r.tc == Some(tc),
            call_ensures(TC::service, (&*tc,), r.s),
            r.blkx == blkx,
            r.is_preview_mode == preview,
            call_ensures(TC::get_config_service, (&*tc,), r.config_provider),
            r.config_provider is Some,
    {
        let service = tc.service();
        let provider = tc.get_config_service();
        let mut b = Builder::new();
        b.controller(Some(share(&tc)));
        b.service(service);
        b.blkx(blkx);
        b.config_provider(provider);
        b.preview_mode(preview);
        b.build()
    }
}

/// Step-by-step construction of an [`OverlayContext`].
pub struct Builder<TC, S, P: ?Sized = dyn ConfigProvider> {
    pub tc: Option<Arc<TC>>,
    pub s: Option<Arc<S>>,
    pub blkx: Option<Blkx>,
    pub is_preview_mode: bool,
    pub config_provider: Option<Arc<P>>,
}

impl<TC, S, P: ?Sized> Builder<TC, S, P> {
    /// True when no setting has been made.
    pub open spec fn is_empty(&self) -> bool {
        &&& self.tc is None
        &&& self.s is None
        &&& self.blkx is None
        &&& !self.is_preview_mode
        &&& self.config_provider is None
    }

    pub fn new() -> (r: Builder<TC, S, P>)
        ensures
            r.is_empty(),
    {
        Builder { tc: None, s: None, blkx: None, is_preview_mode: false, config_provider: None }
    }

    /// Sets the controller.
    pub fn controller(&mut self, tc: Option<Arc<TC>>) -> (r: &mut Self)
        ensures
            *r == (Builder { tc, ..*old(self) }),
            *final(self) == *final(r),
    {
        self.tc = tc;
        self
    }

    /// Sets the service.
    pub fn service(&mut self, s: Option<Arc<S>>) -> (r: &mut Self)
        ensures
            *r == (Builder { s, ..*old(self) }),
            *final(self) == *final(r),
    {
        self.s = s;
        self
    }

    /// Sets the aircraft data.
    pub fn blkx(&mut self, blkx: Option<Blkx>) -> (r: &mut Self)
        ensures
            *r == (Builder { blkx, ..*old(self) }),
            *final(self) == *final(r),
    {
        self.blkx = blkx;
        self
    }

    /// Sets preview mode.
    pub fn preview_mode(&mut self, is_preview_mode: bool) -> (r: &mut Self)
        ensures
            *r == (Builder { is_preview_mode, ..*old(self) }),
            *final(self) == *final(r),
    {
        self.is_preview_mode = is_preview_mode;
        self
    }

    /// Sets the configuration provider.
    pub fn config_provider(&mut self, config_provider: Option<Arc<P>>) -> (r:
        &mut Self)
        ensures
            *r == (Builder { config_provider, ..*old(self) }),
            *final(self) == *final(r),
    {
        self.config_provider = config_provider;
        self
    }

    /// The context with the settings made so far.  Without a configuration
    /// provider, the controller's configuration service is taken, and kept,
    /// as the provider; the builder can be used again.
    pub fn build(&mut self) -> (r: OverlayContext<TC, S, P>) where TC: ControllerRef<S, P>
        ensures
            final(self).tc == old(self).tc,
            final(self).s == old(self).s,
            final(self).blkx == old(self).blkx,
            final(self).is_preview_mode == old(self).is_preview_mode,
            old(self).config_provider is Some
                ==> final(self).config_provider == old(self).config_provider,
            old(self).config_provider is None && old(self).tc is None
                ==> final(self).config_provider is None,
            old(self).tc is Some ==> final(self).config_provider is Some,
            old(self).config_provider is None ==> (old(self).tc matches Some(tc)
                ==> call_ensures(TC::get_config_service, (&*tc,), final(self).config_provider)),
            r.tc == final(self).tc,
            r.s == final(self).s,
            r.blkx == final(self).blkx,
            r.is_preview_mode == final(self).is_preview_mode,
            r.config_provider == final(self).config_provider,
    {
        if self.config_provider.is_none() {
            if let Some(tc) = &self.tc {
                self.config_provider = tc.get_config_service();
            }
        }
        OverlayContext {
            tc: share_opt(&self.tc),
            s: share_opt(&self.s),
            blkx: self.blkx,
            is_preview_mode: self.is_preview_mode,
            config_provider: share_opt(&self.config_provider),
        }
    }
}

impl<TC, S, P: ?Sized> Default for Builder<TC, S, P> {
    fn default() -> (r: Builder<TC, S, P>)
        ensures
            r.is_empty(),
    {
        Builder::new()
    }
}

} // verus!
