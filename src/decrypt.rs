use vstd::prelude::*;
use vstd::string::*;

verus! {

/// An encrypted plain-tar layer.
pub const MEDIA_TYPE_LAYER_ENC: &'static str = "application/vnd.oci.image.layer.v1.tar+encrypted";

/// An encrypted gzip layer.
pub const MEDIA_TYPE_LAYER_GZIP_ENC: &'static str = "application/vnd.oci.image.layer.v1.tar+gzip+encrypted";

/// An encrypted non-distributable plain-tar layer.
pub const MEDIA_TYPE_LAYER_NON_DISTRIBUTABLE_ENC: &'static str =
    "application/vnd.oci.image.layer.nondistributable.v1.tar+encrypted";

/// An encrypted non-distributable gzip layer.
pub const MEDIA_TYPE_LAYER_NON_DISTRIBUTABLE_GZIP_ENC: &'static str =
    "application/vnd.oci.image.layer.nondistributable.v1.tar+gzip+encrypted";

/// An encrypted plain-tar layer's media type.
pub open spec fn layer_enc() -> Seq<char> {
    "application/vnd.oci.image.layer.v1.tar+encrypted"@
}

/// An encrypted gzip layer's media type.
pub open spec fn layer_gzip_enc() -> Seq<char> {
    "application/vnd.oci.image.layer.v1.tar+gzip+encrypted"@
}

/// An encrypted non-distributable plain-tar layer's media type.
pub open spec fn layer_nd_enc() -> Seq<char> {
    "application/vnd.oci.image.layer.nondistributable.v1.tar+encrypted"@
}

/// An encrypted non-distributable gzip layer's media type.
pub open spec fn layer_nd_gzip_enc() -> Seq<char> {
    "application/vnd.oci.image.layer.nondistributable.v1.tar+gzip+encrypted"@
}

/// A plain-tar layer's media type.
pub open spec fn layer_plain() -> Seq<char> {
    "application/vnd.oci.image.layer.v1.tar"@
}

/// A gzip layer's media type.
pub open spec fn layer_gzip() -> Seq<char> {
    "application/vnd.oci.image.layer.v1.tar+gzip"@
}

/// Whether a media type is one of the encrypted layer forms.
pub open spec fn is_encrypted_media_type(m: Seq<char>) -> bool {
    m == layer_enc() || m == layer_nd_enc() || m == layer_gzip_enc() || m == layer_nd_gzip_enc()
}

/// The plain media type that an encrypted one stands for; empty for any
/// other media type.
pub open spec fn plain_media_type(m: Seq<char>) -> Seq<char> {
    if m == layer_enc() || m == layer_nd_enc() {
        layer_plain()
    } else if m == layer_gzip_enc() || m == layer_nd_gzip_enc() {
        layer_gzip()
    } else {
        Seq::empty()
    }
}

/// Relies on oci_distribution::manifest::IMAGE_LAYER_MEDIA_TYPE, the media
/// type of a plain-tar layer.
#[verifier::external_body]
fn image_layer_media_type() -> (r: String)
    ensures
        r@ == layer_plain(),
{
    oci_distribution::manifest::IMAGE_LAYER_MEDIA_TYPE.to_string()
}

/// Relies on oci_distribution::manifest::IMAGE_LAYER_GZIP_MEDIA_TYPE, the
/// media type of a gzip layer.
#[verifier::external_body]
fn image_layer_gzip_media_type() -> (r: String)
    ensures
        r@ == layer_gzip(),
{
    oci_distribution::manifest::IMAGE_LAYER_GZIP_MEDIA_TYPE.to_string()
}

/// Why a layer could not be decrypted.
#[derive(Clone, Copy, Debug, PartialEq, Eq)]
pub enum DecryptError {
    /// The layer's media type is not an encrypted one.
    NotEncrypted,
    /// No decrypt configuration was given.
    MissingConfig,
    /// The decrypt configuration could not be parsed.
    InvalidConfig,
    /// The parsed configuration holds nothing to decrypt with.
    NoConfig,
    /// The crypto engine failed or produced no plaintext.
    DecryptFailed,
}

/// What the crypto engine reported for one layer.
#[derive(Clone, Debug)]
pub enum EngineOutcome {
    /// The decrypt configuration could not be parsed.
    ConfigRejected,
    /// The parsed configuration holds no decrypt configuration.
    NoDecryptConfig,
    /// The engine reported an error.
    Failed,
    /// The engine gave no layer decryptor.
    NoDecryptor,
    /// The plaintext of the layer.
    Plaintext(Vec<u8>),
}

/// The error that an engine outcome other than plaintext stands for.
pub open spec fn outcome_error(o: EngineOutcome) -> DecryptError {
    match o {
        EngineOutcome::ConfigRejected => DecryptError::InvalidConfig,
        EngineOutcome::NoDecryptConfig => DecryptError::NoConfig,
        _ => DecryptError::DecryptFailed,
    }
}

/// What a decrypt request yields: the request check first, then the engine.
pub open spec fn decrypt_result(encrypted: bool, config: Seq<char>, outcome: EngineOutcome) -> Result<
    Seq<u8>,
    DecryptError,
> {
    if !encrypted {
        Err(DecryptError::NotEncrypted)
    } else if config.len() == 0 {
        Err(DecryptError::MissingConfig)
    } else {
        match outcome {
            EngineOutcome::Plaintext(p) => Ok(p@),
            _ => Err(outcome_error(outcome)),
        }
    }
}

/// The bytes of a result, its error kept.
pub open spec fn bytes_result(r: Result<Vec<u8>, DecryptError>) -> Result<Seq<u8>, DecryptError> {
    match r {
        Ok(v) => Ok(v@),
        Err(e) => Err(e),
    }
}

/// Whether two strings hold the same characters.
pub fn str_eq(a: &str, b: &str) -> (r: bool)
    ensures
        r == (a@ == b@),
{
    let n = a.unicode_len();
    let m = b.unicode_len();
    if n != m {
        return false;
    }
    let mut i: usize = 0;
    while i < n
        invariant
            n == a@.len(),
            m == b@.len(),
            n == m,
            i <= n,
            forall|j: int| 0 <= j < i ==> a@[j] == b@[j],
        decreases n - i,
    {
        if a.get_char(i) != b.get_char(i) {
            return false;
        }
        i = i + 1;
    }
    proof {
        assert(a@ =~= b@);
    }
    true
}

/// Classifies a layer's media type as encrypted or plain.
#[derive(Clone)]
pub struct Decryptor {
    /// The layer's media type before encryption.
    pub media_type: String,
    /// Whether the layer is encrypted.
    pub encrypted: bool,
}

impl Default for Decryptor {
    fn default() -> (r: Decryptor)
        ensures
            r.media_type@ == Seq::<char>::empty(),
            !r.encrypted,
    {
        Decryptor { media_type: String::new(), encrypted: false }
    }
}

impl Decryptor {
    /// Builds a Decryptor from a layer's declared media type.
    pub fn from_media_type(media_type: &str) -> (r: Decryptor)
        ensures
            r.media_type@ == plain_media_type(media_type@),
            r.encrypted == is_encrypted_media_type(media_type@),
    {
        proof {
            reveal_strlit("application/vnd.oci.image.layer.v1.tar+encrypted");
            reveal_strlit("application/vnd.oci.image.layer.v1.tar+gzip+encrypted");
            reveal_strlit("application/vnd.oci.image.layer.nondistributable.v1.tar+encrypted");
            reveal_strlit("application/vnd.oci.image.layer.nondistributable.v1.tar+gzip+encrypted");
        }
        if str_eq(media_type, MEDIA_TYPE_LAYER_ENC) || str_eq(
            media_type,
            MEDIA_TYPE_LAYER_NON_DISTRIBUTABLE_ENC,
        ) {
            Decryptor { media_type: image_layer_media_type(), encrypted: true }
        } else if str_eq(media_type, MEDIA_TYPE_LAYER_GZIP_ENC) || str_eq(
            media_type,
            MEDIA_TYPE_LAYER_NON_DISTRIBUTABLE_GZIP_ENC,
        ) {
            Decryptor { media_type: image_layer_gzip_media_type(), encrypted: true }
        } else {
            Decryptor { media_type: String::new(), encrypted: false }
        }
    }

    /// The layer's media type before encryption.
    pub fn plain_media_type(&self) -> (r: &str)
        ensures
            r@ == self.media_type@,
    {
        self.media_type.as_str()
    }

    /// Whether the layer's media type is an encrypted one.
    pub fn is_encrypted(&self) -> (r: bool)
        ensures
            r == self.encrypted,
    {
        self.encrypted
    }

    /// Checks a decrypt request before any work is handed to the crypto
    /// engine: the layer must be encrypted and a configuration given.
    pub fn check_request(&self, decrypt_config: &str) -> (r: Result<(), DecryptError>)
        ensures
            !self.encrypted ==> r == Err::<(), DecryptError>(DecryptError::NotEncrypted),
            self.encrypted && decrypt_config@.len() == 0 ==> r == Err::<(), DecryptError>(
                DecryptError::MissingConfig,
            ),
            self.encrypted && decrypt_config@.len() > 0 ==> r is Ok,
    {
        if !self.is_encrypted() {
            return Err(DecryptError::NotEncrypted);
        }
        if decrypt_config.unicode_len() == 0 {
            return Err(DecryptError::MissingConfig);
        }
        Ok(())
    }

    /// The plaintext layer, from the request check and what the crypto
    /// engine reported: the check's error comes first, then the engine's.
    pub fn plaintext_layer(&self, decrypt_config: &str, outcome: EngineOutcome) -> (r: Result<
        Vec<u8>,
        DecryptError,
    >)
        ensures
            bytes_result(r) == decrypt_result(self.encrypted, decrypt_config@, outcome),
    {
        match self.check_request(decrypt_config) {
            Err(e) => Err(e),
            Ok(()) => match outcome {
                EngineOutcome::Plaintext(p) => Ok(p),
                EngineOutcome::ConfigRejected => Err(DecryptError::InvalidConfig),
                EngineOutcome::NoDecryptConfig => Err(DecryptError::NoConfig),
                EngineOutcome::Failed => Err(DecryptError::DecryptFailed),
                EngineOutcome::NoDecryptor => Err(DecryptError::DecryptFailed),
            },
        }
    }
}

/// A Decryptor built from a media type that is not an encrypted one refuses
/// every request with a "not encrypted" error, whatever the configuration and
/// whatever the engine would report.
pub proof fn lemma_plain_layer_refused(media_type: Seq<char>, config: Seq<char>, outcome: EngineOutcome)
    requires
        !is_encrypted_media_type(media_type),
    ensures
        decrypt_result(is_encrypted_media_type(media_type), config, outcome) == Err::<
            Seq<u8>,
            DecryptError,
        >(DecryptError::NotEncrypted),
{
}

/// A Decryptor built from an encrypted media type refuses an empty
/// configuration with a "missing config" error, whatever the engine would
/// report: nothing is handed to it.
pub proof fn lemma_empty_config_refused(media_type: Seq<char>, outcome: EngineOutcome)
    requires
        is_encrypted_media_type(media_type),
    ensures
        decrypt_result(is_encrypted_media_type(media_type), Seq::empty(), outcome) == Err::<
            Seq<u8>,
            DecryptError,
        >(DecryptError::MissingConfig),
{
}

} // verus!
