//! How the channel to an endpoint is set up.
use crate::text;
use vstd::prelude::*;

verus! {

/// How a channel is secured.
#[derive(Debug, PartialEq, Eq)]
pub enum Tls {
    /// Not at all.
    Off,
    /// With the web's certificate authorities, for the host of the URL.
    WebRoots,
    /// With the web's certificate authorities, for the given domain.
    Domain(String),
}

/// What a `Tls` stands for.
pub enum TlsView {
    Off,
    WebRoots,
    Domain(Seq<char>),
}

impl View for Tls {
    type V = TlsView;

    open spec fn view(&self) -> TlsView {
        match self {
            Tls::Off => TlsView::Off,
            Tls::WebRoots => TlsView::WebRoots,
            Tls::Domain(domain) => TlsView::Domain(domain@),
        }
    }
}

/// Where a channel leads and how it is secured.
#[derive(Debug, PartialEq, Eq)]
pub struct ChannelSettings {
    pub url: String,
    pub tls: Tls,
}

/// What `ChannelSettings` stand for.
pub struct ChannelSettingsView {
    pub url: Seq<char>,
    pub tls: TlsView,
}

impl View for ChannelSettings {
    type V = ChannelSettingsView;

    open spec fn view(&self) -> ChannelSettingsView {
        ChannelSettingsView { url: self.url@, tls: self.tls@ }
    }
}

impl Clone for ChannelSettings {
    fn clone(&self) -> (r: ChannelSettings)
        ensures
            r@ == self@,
    {
        let tls = match &self.tls {
            Tls::Off => Tls::Off,
            Tls::WebRoots => Tls::WebRoots,
            Tls::Domain(domain) => Tls::Domain(domain.clone()),
        };
        ChannelSettings { url: self.url.clone(), tls }
    }
}

/// The settings for a URL that was given by hand: secured exactly where the URL says so.
pub open spec fn custom_settings(url: Seq<char>) -> ChannelSettingsView {
    ChannelSettingsView {
        url,
        tls: if "https://"@.is_prefix_of(url) {
            TlsView::WebRoots
        } else {
            TlsView::Off
        },
    }
}

impl ChannelSettings {
    /// The settings for a fixed URL, secured for a fixed domain.
    pub fn fixed(url: &str, domain: &str) -> (r: ChannelSettings)
        ensures
            r@ == (ChannelSettingsView { url: url@, tls: TlsView::Domain(domain@) }),
    {
        ChannelSettings { url: url.to_string(), tls: Tls::Domain(domain.to_string()) }
    }

    /// The settings for a URL that was given by hand: secured exactly where the URL says so.
    pub fn custom(url: &str) -> (r: ChannelSettings)
        ensures
            r@ == custom_settings(url@),
    {
        let tls = if text::has_prefix(url, "https://") {
            Tls::WebRoots
        } else {
            Tls::Off
        };
        ChannelSettings { url: url.to_string(), tls }
    }
}

} // verus!
