//! Transport-agnostic request descriptors.

use vstd::prelude::*;
use vstd::string::*;

use crate::types::option_text;

verus! {

/// The header that names the media type of the body.
pub const CONTENT_TYPE: &'static str = "Content-Type";

/// The header that carries the credential.
pub const AUTHORIZATION: &'static str = "Authorization";

/// The header that names the intermediary a request passed through.
pub const VIA: &'static str = "Via";

/// The product token sent in the `Via` header of every request.
pub const VIA_PRODUCT: &'static str = "HyperSwitch";

/// The HTTP method of a request.
#[derive(Clone, Copy, Debug, PartialEq, Eq)]
pub enum Method {
    Get,
    Post,
    Put,
    Delete,
}

/// A header value that is either safe to log or must be masked in logs.
#[derive(Debug, PartialEq, Eq)]
pub enum Maskable {
    Masked(String),
    Normal(String),
}

pub enum MaskableView {
    Masked(Seq<char>),
    Normal(Seq<char>),
}

impl View for Maskable {
    type V = MaskableView;

    open spec fn view(&self) -> MaskableView {
        match self {
            Maskable::Masked(value) => MaskableView::Masked(value@),
            Maskable::Normal(value) => MaskableView::Normal(value@),
        }
    }
}

impl Maskable {
    /// A value that may appear in logs as it is.
    pub fn new_normal(value: String) -> (r: Self)
        ensures
            r == Maskable::Normal(value),
    {
        Maskable::Normal(value)
    }

    /// A value that logs must mask.
    pub fn new_masked(value: String) -> (r: Self)
        ensures
            r == Maskable::Masked(value),
    {
        Maskable::Masked(value)
    }
}

/// One header: its name and its value.
pub type Header = (String, Maskable);

/// The view of a header list: the text of each name and value, in order.
pub open spec fn headers_view(headers: Seq<Header>) -> Seq<(Seq<char>, MaskableView)> {
    Seq::new(headers.len(), |i: int| (headers[i].0@, headers[i].1@))
}

/// Everything the transport needs to perform one call.
#[derive(Debug, PartialEq, Eq)]
pub struct Request {
    pub url: String,
    pub headers: Vec<Header>,
    pub payload: Option<String>,
    pub method: Method,
}

pub struct RequestView {
    pub url: Seq<char>,
    pub headers: Seq<(Seq<char>, MaskableView)>,
    pub payload: Option<Seq<char>>,
    pub method: Method,
}

impl View for Request {
    type V = RequestView;

    open spec fn view(&self) -> RequestView {
        RequestView {
            url: self.url@,
            headers: headers_view(self.headers@),
            payload: option_text(self.payload),
            method: self.method,
        }
    }
}

/// The headers attached to every request.
pub open spec fn default_headers_view() -> Seq<(Seq<char>, MaskableView)> {
    seq![(VIA@, MaskableView::Normal(VIA_PRODUCT@))]
}

/// Collects the parts of a request.
pub struct RequestBuilder {
    pub url: String,
    pub headers: Vec<Header>,
    pub payload: Option<String>,
    pub method: Method,
}

impl View for RequestBuilder {
    type V = RequestView;

    open spec fn view(&self) -> RequestView {
        RequestView {
            url: self.url@,
            headers: headers_view(self.headers@),
            payload: option_text(self.payload),
            method: self.method,
        }
    }
}

impl RequestBuilder {
    /// A `GET` request with no URL, headers or body.
    pub fn new() -> (builder: Self)
        ensures
            builder@ == (RequestView {
                url: Seq::empty(),
                headers: Seq::empty(),
                payload: None,
                method: Method::Get,
            }),
    {
        let builder = RequestBuilder {
            url: String::new(),
            headers: Vec::new(),
            payload: None,
            method: Method::Get,
        };
        assert(headers_view(builder.headers@) =~= Seq::empty());
        builder
    }

    /// Sets the URL.
    pub fn url(self, url: &str) -> (builder: Self)
        ensures
            builder@ == (RequestView { url: url@, ..self@ }),
    {
        RequestBuilder {
            url: String::from_str(url),
            headers: self.headers,
            payload: self.payload,
            method: self.method,
        }
    }

    /// Sets the method.
    pub fn method(self, method: Method) -> (builder: Self)
        ensures
            builder@ == (RequestView { method, ..self@ }),
    {
        RequestBuilder {
            url: self.url,
            headers: self.headers,
            payload: self.payload,
            method,
        }
    }

    /// Appends the headers that every request carries.
    pub fn attach_default_headers(self) -> (builder: Self)
        ensures
            builder@ == (RequestView {
                headers: self@.headers + default_headers_view(),
                ..self@
            }),
    {
        let mut headers = self.headers;
        headers.push((String::from_str(VIA), Maskable::new_normal(String::from_str(VIA_PRODUCT))));
        assert(headers_view(headers@) =~= headers_view(self.headers@) + default_headers_view());
        RequestBuilder { url: self.url, headers, payload: self.payload, method: self.method }
    }

    /// Appends one header whose value may be logged.
    pub fn header(self, header: &str, value: &str) -> (builder: Self)
        ensures
            builder@ == (RequestView {
                headers: self@.headers.push((header@, MaskableView::Normal(value@))),
                ..self@
            }),
    {
        let mut headers = self.headers;
        headers.push((String::from_str(header), Maskable::new_normal(String::from_str(value))));
        assert(headers_view(headers@) =~= headers_view(self.headers@).push(
            (header@, MaskableView::Normal(value@)),
        ));
        RequestBuilder { url: self.url, headers, payload: self.payload, method: self.method }
    }

    /// Appends the given headers, in order.
    pub fn headers(self, headers: Vec<Header>) -> (builder: Self)
        ensures
            builder@ == (RequestView {
                headers: self@.headers + headers_view(headers@),
                ..self@
            }),
    {
        let mut all = self.headers;
        let mut extra = headers;
        all.append(&mut extra);
        assert(headers_view(all@) =~= headers_view(self.headers@) + headers_view(headers@));
        RequestBuilder { url: self.url, headers: all, payload: self.payload, method: self.method }
    }

    /// Sets the body.
    pub fn body(self, body: Option<String>) -> (builder: Self)
        ensures
            builder@ == (RequestView { payload: option_text(body), ..self@ }),
    {
        RequestBuilder { url: self.url, headers: self.headers, payload: body, method: self.method }
    }

    /// The request assembled from the parts collected so far.
    pub fn build(self) -> (request: Request)
        ensures
            request@ == self@,
    {
        Request {
            url: self.url,
            headers: self.headers,
            payload: self.payload,
            method: self.method,
        }
    }
}

} // verus!
