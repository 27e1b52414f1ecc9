use crate::error::OcrError;
use vstd::prelude::*;
use vstd::string::StringExecFns;

verus! {

/// The provider's credential-grant endpoint.
pub const TOKEN_ENDPOINT: &'static str = "https://aip.baidubce.com/oauth/2.0/token";

/// What the credential-grant request asks for.
pub const GRANT_QUERY: &'static str = "?grant_type=client_credentials&client_id=";

/// Separator between the client id and the client secret in the grant request.
pub const SECRET_QUERY: &'static str = "&client_secret=";

/// Long-lived identity issued by the OCR provider.
pub ghost struct ConfigView {
    pub app_id: Seq<char>,
    pub api_key: Seq<char>,
    pub sec_key: Seq<char>,
}

/// Credentials of one OCR application: its id, its client id (`api_key`)
/// and its client secret (`sec_key`).
pub struct OcrConfig {
    app_id: String,
    api_key: String,
    sec_key: String,
}

impl View for OcrConfig {
    type V = ConfigView;

    closed spec fn view(&self) -> ConfigView {
        ConfigView { app_id: self.app_id@, api_key: self.api_key@, sec_key: self.sec_key@ }
    }
}

/// The full address of the credential-grant request for these client keys.
pub open spec fn token_request_url_of(api_key: Seq<char>, sec_key: Seq<char>) -> Seq<char> {
    TOKEN_ENDPOINT@ + GRANT_QUERY@ + api_key + SECRET_QUERY@ + sec_key
}

impl OcrConfig {
    pub fn new(app_id: String, api_key: String, sec_key: String) -> (r: Self)
        ensures
            r@ == (ConfigView { app_id: app_id@, api_key: api_key@, sec_key: sec_key@ }),
    {
        OcrConfig { app_id, api_key, sec_key }
    }

    pub fn app_id(&self) -> (r: &str)
        ensures
            r@ == self@.app_id,
    {
        self.app_id.as_str()
    }

    pub fn api_key(&self) -> (r: &str)
        ensures
            r@ == self@.api_key,
    {
        self.api_key.as_str()
    }

    pub fn sec_key(&self) -> (r: &str)
        ensures
            r@ == self@.sec_key,
    {
        self.sec_key.as_str()
    }

    /// The request that exchanges these credentials for an access token.
    pub fn token_request_url(&self) -> (r: String)
        ensures
            r@ == token_request_url_of(self@.api_key, self@.sec_key),
    {
        let mut url = String::from_str(TOKEN_ENDPOINT);
        url.append(GRANT_QUERY);
        url.append(self.api_key.as_str());
        url.append(SECRET_QUERY);
        url.append(self.sec_key.as_str());
        url
    }
}


/// A cached access token and the Unix second at which it stops being valid.
pub ghost struct TokenView {
    pub access_token: Seq<char>,
    pub expire_time: u64,
}

/// A short-lived access token with its absolute expiry time (Unix seconds).
pub struct OcrState {
    access_token: String,
    expire_time: u64,
}

impl View for OcrState {
    type V = TokenView;

    closed spec fn view(&self) -> TokenView {
        TokenView { access_token: self.access_token@, expire_time: self.expire_time }
    }
}

impl PartialEq for OcrState {
    fn eq(&self, o: &OcrState) -> (r: bool) {
        self.expire_time == o.expire_time && self.access_token == o.access_token
    }
}

impl vstd::std_specs::cmp::PartialEqSpecImpl for OcrState {
    open spec fn obeys_eq_spec() -> bool {
        true
    }

    open spec fn eq_spec(&self, o: &OcrState) -> bool {
        self@ == o@
    }
}

/// A token is expired once its expiry time lies strictly before `now`.
pub open spec fn token_expired(t: TokenView, now: u64) -> bool {
    t.expire_time < now
}

/// The issuance answer can be turned into a token: its lifetime is not
/// negative and the resulting expiry time fits in a `u64`.
pub open spec fn issuance_ok(expires_in: i64, issued_at: u64) -> bool {
    0 <= expires_in && issued_at + expires_in <= u64::MAX
}

/// The token that an issuance answer at `issued_at` stands for.
pub open spec fn issued_token(access_token: Seq<char>, expires_in: i64, issued_at: u64) -> TokenView {
    TokenView { access_token, expire_time: (issued_at + expires_in) as u64 }
}

/// Whether a token must be (re)issued: none is cached, or the cached one expired.
pub open spec fn needs_refresh(cached: Option<TokenView>, now: u64) -> bool {
    match cached {
        None => true,
        Some(t) => token_expired(t, now),
    }
}

/// Whether a freshly issued token has to be written to the state store:
/// nothing was stored, or what was stored differs from it.
pub open spec fn should_persist(previous: Option<TokenView>, fresh: TokenView) -> bool {
    match previous {
        None => true,
        Some(p) => p != fresh,
    }
}

/// The tokens of the state store, seen through their views.
pub open spec fn cached_view(cached: Option<OcrState>) -> Option<TokenView> {
    match cached {
        None => None,
        Some(s) => Some(s@),
    }
}

impl OcrState {
    pub fn new(access_token: String, expire_time: u64) -> (r: Self)
        ensures
            r@ == (TokenView { access_token: access_token@, expire_time }),
    {
        OcrState { access_token, expire_time }
    }

    pub fn access_token(&self) -> (r: &str)
        ensures
            r@ == self@.access_token,
    {
        self.access_token.as_str()
    }

    pub fn expire_time(&self) -> (r: u64)
        ensures
            r == self@.expire_time,
    {
        self.expire_time
    }

    pub fn is_expired(&self, now: u64) -> (r: bool)
        ensures
            r == token_expired(self@, now),
    {
        self.expire_time < now
    }

    /// Builds the token that the issuance endpoint handed out at `issued_at`
    /// with a lifetime of `expires_in` seconds. A negative lifetime, or one
    /// whose end does not fit in a `u64`, is a malformed answer.
    pub fn from_issuance(access_token: String, expires_in: i64, issued_at: u64) -> (r: Result<
        OcrState,
        OcrError,
    >)
        ensures
            match r {
                Ok(s) => issuance_ok(expires_in, issued_at) && s@ == issued_token(
                    access_token@,
                    expires_in,
                    issued_at,
                ),
                Err(e) => !issuance_ok(expires_in, issued_at) && e == OcrError::AuthError,
            },
    {
        if expires_in < 0 {
            return Err(OcrError::AuthError);
        }
        let lifetime = expires_in as u64;
        if issued_at > u64::MAX - lifetime {
            return Err(OcrError::AuthError);
        }
        Ok(OcrState { access_token, expire_time: issued_at + lifetime })
    }
}

/// What to do with the token found in the state store.
pub enum TokenPlan {
    /// The cached token is still valid: hand it out, write nothing.
    Reuse(OcrState),
    /// A token must be issued; carries what was cached, if anything.
    Refresh(Option<OcrState>),
}

/// Decides, at Unix time `now`, whether the cached token can be used as it is.
pub fn plan_token(cached: Option<OcrState>, now: u64) -> (r: TokenPlan)
    ensures
        match r {
            TokenPlan::Reuse(t) => !needs_refresh(cached_view(cached), now) && cached == Some(t),
            TokenPlan::Refresh(p) => needs_refresh(cached_view(cached), now) && p == cached,
        },
{
    match cached {
        Some(t) => {
            if t.is_expired(now) {
                TokenPlan::Refresh(Some(t))
            } else {
                TokenPlan::Reuse(t)
            }
        },
        None => TokenPlan::Refresh(None),
    }
}

/// The token to hand out after an issuance exchange, and whether to store it.
pub struct RefreshOutcome {
    pub token: OcrState,
    pub persist: bool,
}

/// Turns the answer of an issuance exchange made at `issued_at` into the token
/// that callers receive: always the fresh one. It is to be stored exactly when
/// it differs from what was cached before.
pub fn finish_refresh(
    previous: Option<OcrState>,
    access_token: String,
    expires_in: i64,
    issued_at: u64,
) -> (r: Result<RefreshOutcome, OcrError>)
    ensures
        match r {
            Ok(o) => issuance_ok(expires_in, issued_at) && o.token@ == issued_token(
                access_token@,
                expires_in,
                issued_at,
            ) && o.persist == should_persist(cached_view(previous), o.token@),
            Err(e) => !issuance_ok(expires_in, issued_at) && e == OcrError::AuthError,
        },
{
    let token = match OcrState::from_issuance(access_token, expires_in, issued_at) {
        Ok(t) => t,
        Err(e) => return Err(e),
    };
    let persist = match &previous {
        None => true,
        Some(p) => !(*p == token),
    };
    Ok(RefreshOutcome { token, persist })
}

/// An expired cached token is always replaced, and the replacement, issued no
/// earlier than the expiry check, is not expired at that time.
pub proof fn lemma_expired_token_is_refreshed(
    cached: TokenView,
    now: u64,
    access_token: Seq<char>,
    expires_in: i64,
    issued_at: u64,
)
    requires
        token_expired(cached, now),
        now <= issued_at,
        issuance_ok(expires_in, issued_at),
    ensures
        needs_refresh(Some(cached), now),
        !token_expired(issued_token(access_token, expires_in, issued_at), now),
{
}

/// A cached token that has not expired is handed out as it is, and a refresh
/// that yields the very token already stored writes nothing.
pub proof fn lemma_valid_token_is_not_rewritten(cached: TokenView, now: u64)
    requires
        !token_expired(cached, now),
    ensures
        !needs_refresh(Some(cached), now),
        !should_persist(Some(cached), cached),
{
}


/// Base address of the general-purpose text recognition endpoint.
pub const GENERAL_BASIC_URL: &'static str = "https://aip.baidubce.com/rest/2.0/ocr/v1/general_basic";

/// Base address of the high-accuracy text recognition endpoint.
pub const ACCURATE_BASIC_URL: &'static str = "https://aip.baidubce.com/rest/2.0/ocr/v1/accurate_basic";

/// What joins an endpoint's base address and the access token.
pub const TOKEN_QUERY: &'static str = "?access_token=";

/// The general-purpose endpoint, bound to one access token.
pub struct BaiduGeneralBasic {
    access_token: String,
}

impl View for BaiduGeneralBasic {
    type V = Seq<char>;

    closed spec fn view(&self) -> Seq<char> {
        self.access_token@
    }
}

impl BaiduGeneralBasic {
    pub fn from_state(state: &OcrState) -> (r: Self)
        ensures
            r@ == state@.access_token,
    {
        BaiduGeneralBasic { access_token: state.access_token.clone() }
    }
}

/// The high-accuracy endpoint, bound to one access token.
pub struct BaiduAccurateBasic {
    access_token: String,
}

impl View for BaiduAccurateBasic {
    type V = Seq<char>;

    closed spec fn view(&self) -> Seq<char> {
        self.access_token@
    }
}

impl BaiduAccurateBasic {
    pub fn from_state(state: &OcrState) -> (r: Self)
        ensures
            r@ == state@.access_token,
    {
        BaiduAccurateBasic { access_token: state.access_token.clone() }
    }
}

/// The closed set of OCR endpoints this client can target.
pub enum BaiduOcrApis {
    GeneralBasic(BaiduGeneralBasic),
    AccurateBasic(BaiduAccurateBasic),
}

impl BaiduOcrApis {
    /// The base address of the chosen endpoint.
    pub open spec fn base_url(&self) -> Seq<char> {
        match self {
            BaiduOcrApis::GeneralBasic(_) => GENERAL_BASIC_URL@,
            BaiduOcrApis::AccurateBasic(_) => ACCURATE_BASIC_URL@,
        }
    }

    /// The access token the client was built with.
    pub open spec fn token(&self) -> Seq<char> {
        match self {
            BaiduOcrApis::GeneralBasic(api) => api@,
            BaiduOcrApis::AccurateBasic(api) => api@,
        }
    }
}

/// Which endpoint a client targets.
#[derive(PartialEq, Eq, Structural, Debug, Clone, Copy)]
pub enum OcrVariant {
    General,
    Accurate,
}

impl BaiduOcrApis {
    /// The client of the chosen endpoint, bound to the state's access token.
    pub fn from_token(variant: OcrVariant, state: &OcrState) -> (r: Self)
        ensures
            r.token() == state@.access_token,
            r.base_url() == match variant {
                OcrVariant::General => GENERAL_BASIC_URL@,
                OcrVariant::Accurate => ACCURATE_BASIC_URL@,
            },
    {
        match variant {
            OcrVariant::General => BaiduOcrApis::GeneralBasic(BaiduGeneralBasic::from_state(state)),
            OcrVariant::Accurate => BaiduOcrApis::AccurateBasic(
                BaiduAccurateBasic::from_state(state),
            ),
        }
    }
}

/// An OCR endpoint that can say where its requests go.
pub trait OcrApi {
    spec fn request_url(&self) -> Seq<char>;

    fn url(&self) -> (r: String)
        ensures
            r@ == self.request_url(),
    ;
}

impl OcrApi for BaiduOcrApis {
    open spec fn request_url(&self) -> Seq<char> {
        self.base_url() + TOKEN_QUERY@ + self.token()
    }

    fn url(&self) -> (r: String) {
        let (base, token) = match self {
            BaiduOcrApis::GeneralBasic(api) => (GENERAL_BASIC_URL, api.access_token.as_str()),
            BaiduOcrApis::AccurateBasic(api) => (ACCURATE_BASIC_URL, api.access_token.as_str()),
        };
        let mut url = String::from_str(base);
        url.append(TOKEN_QUERY);
        url.append(token);
        url
    }
}

/// One recognized text fragment of an OCR answer.
pub struct WordResult {
    words: String,
}

impl View for WordResult {
    type V = Seq<char>;

    closed spec fn view(&self) -> Seq<char> {
        self.words@
    }
}

impl WordResult {
    pub fn new(words: String) -> (r: Self)
        ensures
            r@ == words@,
    {
        WordResult { words }
    }

    pub fn words(&self) -> (r: &str)
        ensures
            r@ == self@,
    {
        self.words.as_str()
    }
}

/// The answer of a Baidu OCR endpoint.
pub ghost struct OcrResultView {
    pub log_id: u64,
    pub words_result_num: u32,
    pub words: Seq<Seq<char>>,
}

/// The structured answer of a Baidu OCR endpoint: the request's log id, the
/// number of records the provider reports, and the records in provider order.
pub struct BaiduOcrResult {
    log_id: u64,
    words_result_num: u32,
    words_result: Vec<WordResult>,
}

impl View for BaiduOcrResult {
    type V = OcrResultView;

    closed spec fn view(&self) -> OcrResultView {
        OcrResultView {
            log_id: self.log_id,
            words_result_num: self.words_result_num,
            words: self.words_result@.map_values(|w: WordResult| w@),
        }
    }
}

impl BaiduOcrResult {
    pub fn new(log_id: u64, words_result_num: u32, words_result: Vec<WordResult>) -> (r: Self)
        ensures
            r@ == (OcrResultView {
                log_id,
                words_result_num,
                words: words_result@.map_values(|w: WordResult| w@),
            }),
    {
        BaiduOcrResult { log_id, words_result_num, words_result }
    }

    pub fn log_id(&self) -> (r: u64)
        ensures
            r == self@.log_id,
    {
        self.log_id
    }

    pub fn words_result_num(&self) -> (r: u32)
        ensures
            r == self@.words_result_num,
    {
        self.words_result_num
    }

    /// The records, each read back as its text.
    pub fn words_result(&self) -> (r: &Vec<WordResult>)
        ensures
            r@.map_values(|w: WordResult| w@) == self@.words,
    {
        &self.words_result
    }
}

/// An OCR answer that can be read as an ordered sequence of text fragments.
pub trait OcrResult {
    /// The recognized fragments, in the order the provider gave them.
    spec fn fragments(&self) -> Seq<Seq<char>>;

    /// One string per record, in the provider's order, unchanged.
    fn extract_text(&self) -> (r: Vec<String>)
        ensures
            r@.map_values(|s: String| s@) == self.fragments(),
    ;
}

impl OcrResult for BaiduOcrResult {
    open spec fn fragments(&self) -> Seq<Seq<char>> {
        self@.words
    }

    fn extract_text(&self) -> (r: Vec<String>) {
        let mut out: Vec<String> = Vec::new();
        let mut i: usize = 0;
        while i < self.words_result.len()
            invariant
                i <= self.words_result@.len(),
                out@.len() == i,
                forall|j: int| 0 <= j < i ==> out@[j]@ == self.words_result@[j]@,
            decreases self.words_result@.len() - i,
        {
            out.push(self.words_result[i].words.clone());
            i += 1;
        }
        assert(out@.map_values(|s: String| s@) =~= self@.words);
        out
    }
}


/// The text lines of a fetched OCR answer. A fetch that failed passes its
/// error on unchanged; an answer with no records gives no lines, not an error.
pub fn text_of_fetch<R: OcrResult>(fetched: Result<R, OcrError>) -> (r: Result<Vec<String>, OcrError>)
    ensures
        match fetched {
            Ok(res) => r is Ok && r->Ok_0@.map_values(|s: String| s@) == res.fragments(),
            Err(e) => r == Err::<Vec<String>, OcrError>(e),
        },
{
    match fetched {
        Ok(res) => Ok(res.extract_text()),
        Err(e) => Err(e),
    }
}

/// Reading an answer's text keeps every record, in the provider's order:
/// fragment `i` is the text of record `i`, and an answer without records
/// reads as no fragments at all.
pub proof fn lemma_extraction_keeps_order(res: BaiduOcrResult, words: Seq<WordResult>)
    requires
        res@.words == words.map_values(|w: WordResult| w@),
    ensures
        res.fragments().len() == words.len(),
        forall|i: int| 0 <= i < words.len() ==> res.fragments()[i] == words[i]@,
        words.len() == 0 ==> res.fragments() == Seq::<Seq<char>>::empty(),
{
    if words.len() == 0 {
        assert(res.fragments() =~= Seq::<Seq<char>>::empty());
    }
}

} // verus!
