use vstd::prelude::*;

use crate::config::Auth;
use crate::error::{AuthError, ConfigError};
use crate::cli::{kvs_view, KV};
use crate::metadata::{insert_all, json_object_text, MetadataMap};

verus! {

/// Root of the image API.
pub const API_BASE: &'static str = "https://api.cloudflare.com/client/v4/";

/// Content type declared for the uploaded file.
pub const PNG_CONTENT_TYPE: &'static str = "image/png";

/// The URL that the `url` crate resolves `reference` to against `base`, or
/// `None` where either cannot be parsed.
pub uninterp spec fn url_join(base: Seq<char>, reference: Seq<char>) -> Option<Seq<char>>;

/// Relies on `url::Url::parse` of `base` and `url::Url::join` of `reference`
/// onto it: the serialized result is determined by the two texts.
#[verifier::external_body]
fn join_url(base: &str, reference: &str) -> (r: Option<String>)
    ensures
        match r {
            Some(u) => url_join(base@, reference@) == Some(u@),
            None => url_join(base@, reference@) is None,
        },
{
    match url::Url::parse(base) {
        Ok(b) => match b.join(reference) {
            Ok(u) => Some(String::from(u)),
            Err(_) => None,
        },
        Err(_) => None,
    }
}

/// Path of an account's image collection, relative to the API root.
pub open spec fn images_path(account_id: Seq<char>) -> Seq<char> {
    "accounts/"@ + account_id + "/images/v1"@
}

/// Handle on one account of the image API.
pub struct API {
    account_id: String,
    token: String,
    api: String,
}

impl API {
    pub closed spec fn spec_account_id(&self) -> Seq<char> {
        self.account_id@
    }

    pub closed spec fn spec_token(&self) -> Seq<char> {
        self.token@
    }

    pub closed spec fn spec_url(&self) -> Seq<char> {
        self.api@
    }

    /// What `new` returns for these credentials: a handle on the account's
    /// image endpoint, or `BadAccountId` where no URL can be made of it.
    pub open spec fn new_result(
        account_id: Seq<char>,
        token: Seq<char>,
        r: Result<API, ConfigError>,
    ) -> bool {
        match url_join(API_BASE@, images_path(account_id)) {
            Some(u) => r is Ok && r->Ok_0.spec_account_id() == account_id
                && r->Ok_0.spec_token() == token && r->Ok_0.spec_url() == u,
            None => r == Err::<API, ConfigError>(ConfigError::BadAccountId),
        }
    }

    pub fn new(auth: Auth) -> (r: Result<API, ConfigError>)
        ensures
            Self::new_result(auth.account_id@, auth.token@, r),
    {
        let Auth { account_id, token } = auth;
        let mut path = String::from_str("accounts/");
        path.append(account_id.as_str());
        path.append("/images/v1");
        match join_url(API_BASE, path.as_str()) {
            Some(api) => Ok(API { account_id, token, api }),
            None => Err(ConfigError::BadAccountId),
        }
    }

    /// The account's image endpoint.
    pub fn url(&self) -> (r: &str)
        ensures
            r@ == self.spec_url(),
    {
        self.api.as_str()
    }

    pub fn account_id(&self) -> (r: &str)
        ensures
            r@ == self.spec_account_id(),
    {
        self.account_id.as_str()
    }

    /// The bearer token sent with every request.
    pub fn token(&self) -> (r: &str)
        ensures
            r@ == self.spec_token(),
    {
        self.token.as_str()
    }

    /// Starts an upload of `bytes` under `filename`, with unsigned URLs and no
    /// metadata.
    pub fn upload<'a>(&'a self, filename: &'a str, bytes: &'a [u8]) -> (r: Upload<'a>)
        ensures
            r.wf(),
            r.api() == self,
            r.spec_filename() == filename@,
            r.spec_bytes() == bytes@,
            !r.spec_require_signed_urls(),
            r.spec_meta() == Map::<Seq<char>, Seq<char>>::empty(),
    {
        Upload::new(self, filename, bytes)
    }
}

/// Whether an HTTP status is in the success class 2xx.
pub open spec fn is_success_status(status: u16) -> bool {
    200 <= status <= 299
}

/// Judges a token check by its HTTP status class alone: success for 2xx,
/// otherwise an `AuthError` carrying the raw reply.
pub fn check_token_response(status: u16, body: String) -> (r: Result<(), AuthError>)
    ensures
        r is Ok <==> is_success_status(status),
        r is Err ==> r->Err_0.response@ == body@,
{
    if 200 <= status && status <= 299 {
        Ok(())
    } else {
        Err(AuthError { response: body })
    }
}

/// Everything the multipart upload request carries.
pub struct UploadRequest {
    /// Target of the `POST`.
    pub url: String,
    /// Bearer token.
    pub token: String,
    /// File name of the `file` part.
    pub file_name: String,
    /// Content of the `file` part.
    pub file_bytes: Vec<u8>,
    /// Declared content type of the `file` part.
    pub content_type: String,
    /// The `requireSignedURLs` part: `true` or `false`.
    pub require_signed_urls: String,
    /// The `metadata` part: a JSON object.
    pub metadata: String,
}

/// Upload builder; `request` gives what is to be sent.
pub struct Upload<'a> {
    api: &'a API,
    filename: &'a str,
    bytes: &'a [u8],
    require_signed_urls: bool,
    meta: MetadataMap,
}

/// The text of a boolean form field.
pub open spec fn bool_text(b: bool) -> Seq<char> {
    if b {
        "true"@
    } else {
        "false"@
    }
}

impl<'a> Upload<'a> {
    pub closed spec fn wf(&self) -> bool {
        self.meta.wf()
    }

    pub closed spec fn api(&self) -> &'a API {
        self.api
    }

    pub closed spec fn spec_filename(&self) -> Seq<char> {
        self.filename@
    }

    pub closed spec fn spec_bytes(&self) -> Seq<u8> {
        self.bytes@
    }

    pub closed spec fn spec_require_signed_urls(&self) -> bool {
        self.require_signed_urls
    }

    pub closed spec fn spec_meta(&self) -> Map<Seq<char>, Seq<char>> {
        self.meta@
    }

    fn new(api: &'a API, filename: &'a str, bytes: &'a [u8]) -> (r: Self)
        ensures
            r.wf(),
            r.api() == api,
            r.spec_filename() == filename@,
            r.spec_bytes() == bytes@,
            !r.spec_require_signed_urls(),
            r.spec_meta() == Map::<Seq<char>, Seq<char>>::empty(),
    {
        Upload { api, filename, bytes, require_signed_urls: false, meta: MetadataMap::new() }
    }

    /// Replaces the content to upload.
    pub fn bytes(self, bytes: &'a [u8]) -> (r: Self)
        ensures
            r.wf() == self.wf(),
            r.api() == self.api(),
            r.spec_filename() == self.spec_filename(),
            r.spec_bytes() == bytes@,
            r.spec_require_signed_urls() == self.spec_require_signed_urls(),
            r.spec_meta() == self.spec_meta(),
    {
        Upload { bytes, ..self }
    }

    /// Replaces the file name.
    pub fn filename(self, filename: &'a str) -> (r: Self)
        ensures
            r.wf() == self.wf(),
            r.api() == self.api(),
            r.spec_filename() == filename@,
            r.spec_bytes() == self.spec_bytes(),
            r.spec_require_signed_urls() == self.spec_require_signed_urls(),
            r.spec_meta() == self.spec_meta(),
    {
        Upload { filename, ..self }
    }

    /// Asks the service to serve the variants through signed URLs only.
    pub fn require_signed_urls(self) -> (r: Self)
        ensures
            r.wf() == self.wf(),
            r.api() == self.api(),
            r.spec_filename() == self.spec_filename(),
            r.spec_bytes() == self.spec_bytes(),
            r.spec_require_signed_urls(),
            r.spec_meta() == self.spec_meta(),
    {
        Upload { require_signed_urls: true, ..self }
    }

    /// Binds a metadata key, replacing its earlier value.
    pub fn add_meta(&mut self, key: &str, value: &str)
        requires
            old(self).wf(),
        ensures
            final(self).wf(),
            final(self).api() == old(self).api(),
            final(self).spec_filename() == old(self).spec_filename(),
            final(self).spec_bytes() == old(self).spec_bytes(),
            final(self).spec_require_signed_urls() == old(self).spec_require_signed_urls(),
            final(self).spec_meta() == old(self).spec_meta().insert(key@, value@),
    {
        self.meta.insert(String::from_str(key), String::from_str(value));
    }

    /// Binds each `KEY=VALUE` argument in turn; a later one overwrites an
    /// earlier one with the same key.
    pub fn extend_meta(&mut self, metadata: &Vec<KV>)
        requires
            old(self).wf(),
        ensures
            final(self).wf(),
            final(self).api() == old(self).api(),
            final(self).spec_filename() == old(self).spec_filename(),
            final(self).spec_bytes() == old(self).spec_bytes(),
            final(self).spec_require_signed_urls() == old(self).spec_require_signed_urls(),
            final(self).spec_meta() == insert_all(old(self).spec_meta(), kvs_view(metadata@)),
    {
        let ghost start = *self;
        let mut i: usize = 0;
        while i < metadata.len()
            invariant
                self.wf(),
                self.api == start.api,
                self.filename@ == start.filename@,
                self.bytes@ == start.bytes@,
                self.require_signed_urls == start.require_signed_urls,
                i <= metadata@.len(),
                self.meta@ == insert_all(start.meta@, kvs_view(metadata@).take(i as int)),
            decreases metadata@.len() - i,
        {
            let (k, v) = metadata[i].as_pair();
            self.add_meta(k, v);
            proof {
                let p = kvs_view(metadata@);
                assert(p.take(i + 1).drop_last() =~= p.take(i as int));
            }
            i = i + 1;
        }
        proof {
            assert(kvs_view(metadata@).take(i as int) =~= kvs_view(metadata@));
        }
    }

    /// The request that sends this upload: a bearer-authorized multipart
    /// `POST` to the account's endpoint with the parts `file`,
    /// `requireSignedURLs` and `metadata`.
    pub fn request(&self) -> (r: UploadRequest)
        requires
            self.wf(),
        ensures
            r.url@ == self.api().spec_url(),
            r.token@ == self.api().spec_token(),
            r.file_name@ == self.spec_filename(),
            r.file_bytes@ == self.spec_bytes(),
            r.content_type@ == PNG_CONTENT_TYPE@,
            r.require_signed_urls@ == bool_text(self.spec_require_signed_urls()),
            r.metadata@ == json_object_text(self.spec_meta()),
    {
        let metadata = self.meta.to_json();
        let require_signed_urls = if self.require_signed_urls {
            String::from_str("true")
        } else {
            String::from_str("false")
        };
        UploadRequest {
            url: String::from_str(self.api.url()),
            token: String::from_str(self.api.token()),
            file_name: String::from_str(self.filename),
            file_bytes: vstd::slice::slice_to_vec(self.bytes),
            content_type: String::from_str(PNG_CONTENT_TYPE),
            require_signed_urls,
            metadata,
        }
    }
}

} // verus!
