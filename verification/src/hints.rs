//! User-agent client hints, as the `sec-ch-ua` family of headers carries
//! them.

use crate::fields;
use crate::fields::optional_text_at;
use crate::json;
use crate::json::{json_of, Json};
use crate::request::{header_text, HeadersView, RequestHead};
use vstd::prelude::*;

verus! {

/// The client hints of a request.
#[derive(Clone, Debug)]
pub struct ClientHints {
    pub ua: Option<String>,
    pub ua_mobile: Option<String>,
    pub ua_platform: Option<String>,
    pub ua_arch: Option<String>,
    pub ua_platform_version: Option<String>,
    pub ua_model: Option<String>,
    pub ua_bitness: Option<String>,
    pub ua_wow64: Option<String>,
    pub ua_full_version_list: Option<String>,
}

/// The content of a [`ClientHints`].
pub struct HintsView {
    pub ua: Option<Seq<char>>,
    pub ua_mobile: Option<Seq<char>>,
    pub ua_platform: Option<Seq<char>>,
    pub ua_arch: Option<Seq<char>>,
    pub ua_platform_version: Option<Seq<char>>,
    pub ua_model: Option<Seq<char>>,
    pub ua_bitness: Option<Seq<char>>,
    pub ua_wow64: Option<Seq<char>>,
    pub ua_full_version_list: Option<Seq<char>>,
}

impl View for ClientHints {
    type V = HintsView;

    open spec fn view(&self) -> HintsView {
        HintsView {
            ua: self.ua.deep_view(),
            ua_mobile: self.ua_mobile.deep_view(),
            ua_platform: self.ua_platform.deep_view(),
            ua_arch: self.ua_arch.deep_view(),
            ua_platform_version: self.ua_platform_version.deep_view(),
            ua_model: self.ua_model.deep_view(),
            ua_bitness: self.ua_bitness.deep_view(),
            ua_wow64: self.ua_wow64.deep_view(),
            ua_full_version_list: self.ua_full_version_list.deep_view(),
        }
    }
}

impl HintsView {
    /// Hints in which nothing is hinted.
    pub open spec fn blank() -> HintsView {
        HintsView {
            ua: None,
            ua_mobile: None,
            ua_platform: None,
            ua_arch: None,
            ua_platform_version: None,
            ua_model: None,
            ua_bitness: None,
            ua_wow64: None,
            ua_full_version_list: None,
        }
    }
}

/// The hints that the headers carry, each under the header named after it.
pub open spec fn hints_carried(headers: HeadersView) -> HintsView {
    HintsView {
        ua: header_text(headers, "sec-ch-ua"@),
        ua_mobile: header_text(headers, "sec-ch-ua-mobile"@),
        ua_platform: header_text(headers, "sec-ch-ua-platform"@),
        ua_arch: header_text(headers, "sec-ch-ua-arch"@),
        ua_platform_version: header_text(headers, "sec-ch-ua-platform-version"@),
        ua_model: header_text(headers, "sec-ch-ua-model"@),
        ua_bitness: header_text(headers, "sec-ch-ua-bitness"@),
        ua_wow64: header_text(headers, "sec-ch-ua-wow64"@),
        ua_full_version_list: header_text(headers, "sec-ch-ua-full-version-list"@),
    }
}

/// The hints of a request, if its headers carry any at all.
pub open spec fn hints_in(headers: HeadersView) -> Option<HintsView> {
    if hints_carried(headers) == HintsView::blank() {
        None
    } else {
        Some(hints_carried(headers))
    }
}

/// The client hints that a JSON document stands for, if it stands for
/// some: an object whose members, where it has them, are strings.
pub open spec fn hints_of(doc: Json) -> Option<HintsView> {
    match doc {
        Json::Object(members) => {
            let ua = optional_text_at(members, "ua"@);
            let ua_mobile = optional_text_at(members, "ua_mobile"@);
            let ua_platform = optional_text_at(members, "ua_platform"@);
            let ua_arch = optional_text_at(members, "ua_arch"@);
            let ua_platform_version = optional_text_at(members, "ua_platform_version"@);
            let ua_model = optional_text_at(members, "ua_model"@);
            let ua_bitness = optional_text_at(members, "ua_bitness"@);
            let ua_wow64 = optional_text_at(members, "ua_wow64"@);
            let ua_full_version_list = optional_text_at(members, "ua_full_version_list"@);
            if ua is Some
                && ua_mobile is Some
                && ua_platform is Some
                && ua_arch is Some
                && ua_platform_version is Some
                && ua_model is Some
                && ua_bitness is Some
                && ua_wow64 is Some
                && ua_full_version_list is Some {
                Some(
                    HintsView {
                        ua: ua->0,
                        ua_mobile: ua_mobile->0,
                        ua_platform: ua_platform->0,
                        ua_arch: ua_arch->0,
                        ua_platform_version: ua_platform_version->0,
                        ua_model: ua_model->0,
                        ua_bitness: ua_bitness->0,
                        ua_wow64: ua_wow64->0,
                        ua_full_version_list: ua_full_version_list->0,
                    },
                )
            } else {
                None
            }
        },
        _ => None,
    }
}

impl Default for ClientHints {
    /// Hints in which nothing is hinted.
    fn default() -> (r: Self)
        ensures
            r@ == HintsView::blank(),
    {
        ClientHints {
            ua: None,
            ua_mobile: None,
            ua_platform: None,
            ua_arch: None,
            ua_platform_version: None,
            ua_model: None,
            ua_bitness: None,
            ua_wow64: None,
            ua_full_version_list: None,
        }
    }
}

impl ClientHints {
    /// Reads client hints from a JSON value.
    pub fn from_json(doc: &serde_json::Value) -> (r: Option<Self>)
        ensures
            match r {
                Some(hints) => hints_of(json_of(*doc)) == Some(hints@),
                None => hints_of(json_of(*doc)) is None,
            },
    {
        if !json::is_object(doc) {
            return None;
        }
        let ua = match fields::optional_text(doc, "ua") {
            Some(value) => value,
            None => {
                return None;
            },
        };
        let ua_mobile = match fields::optional_text(doc, "ua_mobile") {
            Some(value) => value,
            None => {
                return None;
            },
        };
        let ua_platform = match fields::optional_text(doc, "ua_platform") {
            Some(value) => value,
            None => {
                return None;
            },
        };
        let ua_arch = match fields::optional_text(doc, "ua_arch") {
            Some(value) => value,
            None => {
                return None;
            },
        };
        let ua_platform_version = match fields::optional_text(doc, "ua_platform_version") {
            Some(value) => value,
            None => {
                return None;
            },
        };
        let ua_model = match fields::optional_text(doc, "ua_model") {
            Some(value) => value,
            None => {
                return None;
            },
        };
        let ua_bitness = match fields::optional_text(doc, "ua_bitness") {
            Some(value) => value,
            None => {
                return None;
            },
        };
        let ua_wow64 = match fields::optional_text(doc, "ua_wow64") {
            Some(value) => value,
            None => {
                return None;
            },
        };
        let ua_full_version_list = match fields::optional_text(doc, "ua_full_version_list") {
            Some(value) => value,
            None => {
                return None;
            },
        };
        Some(
            ClientHints {
                ua,
                ua_mobile,
                ua_platform,
                ua_arch,
                ua_platform_version,
                ua_model,
                ua_bitness,
                ua_wow64,
                ua_full_version_list,
            },
        )
    }

    /// Reads the client hints of a request, if it has any.
    pub fn from_headers(head: &RequestHead) -> (r: Option<Self>)
        ensures
            match r {
                Some(hints) => hints_in(head@.headers) == Some(hints@),
                None => hints_in(head@.headers) is None,
            },
    {
        let ua = head.header_text("sec-ch-ua");
        let ua_mobile = head.header_text("sec-ch-ua-mobile");
        let ua_platform = head.header_text("sec-ch-ua-platform");
        let ua_arch = head.header_text("sec-ch-ua-arch");
        let ua_platform_version = head.header_text("sec-ch-ua-platform-version");
        let ua_model = head.header_text("sec-ch-ua-model");
        let ua_bitness = head.header_text("sec-ch-ua-bitness");
        let ua_wow64 = head.header_text("sec-ch-ua-wow64");
        let ua_full_version_list = head.header_text("sec-ch-ua-full-version-list");
        if ua.is_none() && ua_mobile.is_none() && ua_platform.is_none() && ua_arch.is_none()
            && ua_platform_version.is_none() && ua_model.is_none() && ua_bitness.is_none()
            && ua_wow64.is_none() && ua_full_version_list.is_none() {
            None
        } else {
            Some(
                ClientHints {
                    ua,
                    ua_mobile,
                    ua_platform,
                    ua_arch,
                    ua_platform_version,
                    ua_model,
                    ua_bitness,
                    ua_wow64,
                    ua_full_version_list,
                },
            )
        }
    }
}

} // verus!
