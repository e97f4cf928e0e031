//! The neutral configuration model: an immutable value describing how to
//! reach and authenticate with the backend, plus producer/consumer tuning
//! knobs, built through an incremental builder that applies documented
//! defaults and validates every invariant at `build`.

use vstd::prelude::*;

verus! {

/// Compares two string slices by their character sequences.
pub(crate) fn str_eq(a: &str, b: &str) -> (r: bool)
    ensures
        r == (a@ == b@),
{
    a.to_owned() == b.to_owned()
}

/// The closed set of transport security protocols.
pub open spec fn valid_security_protocol(s: Seq<char>) -> bool {
    s == "PLAINTEXT"@ || s == "SASL_PLAINTEXT"@ || s == "SASL_SSL"@ || s == "SSL"@
}

/// The protocols under which a CA certificate is required unless peer
/// verification is disabled.
pub open spec fn requires_tls(s: Seq<char>) -> bool {
    s == "SASL_SSL"@ || s == "SSL"@
}

/// The closed set of SCRAM sub-variants.
pub open spec fn valid_scram_variant(s: Seq<char>) -> bool {
    s == "SCRAM-SHA-256"@ || s == "SCRAM-SHA-512"@
}

/// The closed set of consumer offset-reset policies.
pub open spec fn valid_auto_offset_reset(s: Seq<char>) -> bool {
    s == "latest"@ || s == "earliest"@
}

/// One violated constraint found while building a configuration.
#[derive(Clone, Copy, Debug, PartialEq, Eq, Structural)]
pub enum ConfigViolation {
    /// `brokers` is empty.
    EmptyBrokers,
    /// `security_protocol` is outside its closed set.
    UnknownSecurityProtocol,
    /// TLS is required but `ca_cert_path` is empty and peer verification
    /// is not disabled.
    MissingCaCertPath,
    /// `sasl_scram_variant` is outside its closed set.
    UnknownScramVariant,
    /// `auto_offset_reset` is outside its closed set.
    UnknownAutoOffsetReset,
    /// `message_max_bytes` is zero.
    ZeroMessageMaxBytes,
    /// `publish_timeout` is zero.
    ZeroMessageTimeout,
}

/// An immutable, validated description of how to reach and authenticate with
/// the backend. Durations are carried in milliseconds.
#[derive(Clone, Debug)]
pub struct KafkaConfig {
    /// Bootstrap endpoints, a comma-separated host:port list; never empty.
    pub brokers: String,
    /// SASL credential; empty when unused.
    pub username: String,
    /// SASL credential; empty when unused.
    pub password: String,
    /// SCRAM sub-variant: "SCRAM-SHA-256" or "SCRAM-SHA-512".
    pub sasl_type_scram_sha: String,
    /// Top-level SASL mechanism family, "PLAIN" by default; open set.
    pub sasl_mechanism: String,
    /// Transport security: "PLAINTEXT", "SASL_PLAINTEXT", "SASL_SSL" or "SSL".
    pub security_protocol: String,
    /// CA certificate path; required under TLS unless verification is skipped.
    pub cert_path: String,
    /// Disables peer verification.
    pub insecure_skip_verify: bool,
    /// Producer delivery timeout in milliseconds; never zero.
    pub message_timeout_ms: u64,
    /// Per-record size ceiling in bytes; never zero.
    pub message_max_bytes: usize,
    /// Producer retry attempts.
    pub message_send_max_retries: usize,
    /// Consumer offset-reset policy: "latest" or "earliest".
    pub auto_offset_reset: String,
    /// Backend-managed commit versus handler-driven commit.
    pub enable_auto_commit: bool,
    /// Maximum wait for in-flight work during shutdown, in milliseconds.
    pub graceful_wait_timeout_ms: u64,
}

impl KafkaConfig {
    /// Every invariant a built configuration satisfies.
    pub open spec fn valid(self) -> bool {
        &&& self.brokers@.len() > 0
        &&& valid_security_protocol(self.security_protocol@)
        &&& (requires_tls(self.security_protocol@) && !self.insecure_skip_verify
            ==> self.cert_path@.len() > 0)
        &&& valid_scram_variant(self.sasl_type_scram_sha@)
        &&& valid_auto_offset_reset(self.auto_offset_reset@)
        &&& self.message_max_bytes > 0
        &&& self.message_timeout_ms > 0
    }

    /// Checks executably every invariant a built configuration satisfies.
    pub fn is_valid(&self) -> (r: bool)
        ensures
            r == self.valid(),
    {
        let protocol = self.security_protocol.as_str();
        let protocol_known = str_eq(protocol, "PLAINTEXT") || str_eq(protocol, "SASL_PLAINTEXT")
            || str_eq(protocol, "SASL_SSL") || str_eq(protocol, "SSL");
        let tls = str_eq(protocol, "SASL_SSL") || str_eq(protocol, "SSL");
        let scram = self.sasl_type_scram_sha.as_str();
        let reset = self.auto_offset_reset.as_str();
        !self.brokers.as_str().is_empty() && protocol_known
            && (!tls || self.insecure_skip_verify || !self.cert_path.as_str().is_empty())
            && (str_eq(scram, "SCRAM-SHA-256") || str_eq(scram, "SCRAM-SHA-512"))
            && (str_eq(reset, "latest") || str_eq(reset, "earliest"))
            && self.message_max_bytes > 0 && self.message_timeout_ms > 0
    }

    /// Starts a builder holding the mandatory bootstrap endpoints.
    pub fn builder(brokers: &str) -> (r: KafkaConfigBuilder)
        ensures
            r.fresh(brokers@),
    {
        KafkaConfigBuilder::new(brokers)
    }
}

/// Incremental configuration builder. Option setters record overrides and
/// return the builder for chaining; `build` applies the documented default to
/// every unset option and validates the result.
#[derive(Debug)]
pub struct KafkaConfigBuilder {
    pub brokers: String,
    pub username: String,
    pub password: String,
    pub sasl_type_scram_sha: Option<String>,
    pub sasl_mechanism: Option<String>,
    pub security_protocol: Option<String>,
    pub cert_path: String,
    pub insecure_skip_verify: Option<bool>,
    pub message_timeout_ms: Option<u64>,
    pub message_max_bytes: Option<usize>,
    pub message_send_max_retries: Option<usize>,
    pub auto_offset_reset: Option<String>,
    pub enable_auto_commit: Option<bool>,
    pub graceful_wait_timeout_ms: Option<u64>,
}

impl KafkaConfigBuilder {
    /// A builder as `new` returns it: endpoints recorded, everything else
    /// unset.
    pub open spec fn fresh(self, brokers: Seq<char>) -> bool {
        &&& self.brokers@ == brokers
        &&& self.username@ == Seq::<char>::empty()
        &&& self.password@ == Seq::<char>::empty()
        &&& self.cert_path@ == Seq::<char>::empty()
        &&& self.sasl_type_scram_sha is None
        &&& self.sasl_mechanism is None
        &&& self.security_protocol is None
        &&& self.insecure_skip_verify is None
        &&& self.message_timeout_ms is None
        &&& self.message_max_bytes is None
        &&& self.message_send_max_retries is None
        &&& self.auto_offset_reset is None
        &&& self.enable_auto_commit is None
        &&& self.graceful_wait_timeout_ms is None
    }

    /// The SCRAM sub-variant `build` will emit.
    pub open spec fn resolved_scram(self) -> Seq<char> {
        match self.sasl_type_scram_sha {
            Some(s) => s@,
            None => "SCRAM-SHA-256"@,
        }
    }

    /// The SASL mechanism `build` will emit.
    pub open spec fn resolved_mechanism(self) -> Seq<char> {
        match self.sasl_mechanism {
            Some(s) => s@,
            None => "PLAIN"@,
        }
    }

    /// The security protocol `build` will emit.
    pub open spec fn resolved_protocol(self) -> Seq<char> {
        match self.security_protocol {
            Some(s) => s@,
            None => "PLAINTEXT"@,
        }
    }

    /// The offset-reset policy `build` will emit.
    pub open spec fn resolved_offset_reset(self) -> Seq<char> {
        match self.auto_offset_reset {
            Some(s) => s@,
            None => "latest"@,
        }
    }

    /// The peer-verification flag `build` will emit.
    pub open spec fn resolved_skip_verify(self) -> bool {
        match self.insecure_skip_verify {
            Some(b) => b,
            None => false,
        }
    }

    /// The publish timeout `build` will emit, in milliseconds.
    pub open spec fn resolved_timeout_ms(self) -> u64 {
        match self.message_timeout_ms {
            Some(t) => t,
            None => 10_000u64,
        }
    }

    /// The size ceiling `build` will emit, in bytes.
    pub open spec fn resolved_max_bytes(self) -> usize {
        match self.message_max_bytes {
            Some(n) => n,
            None => 1_048_576usize,
        }
    }

    /// The retry count `build` will emit.
    pub open spec fn resolved_max_retries(self) -> usize {
        match self.message_send_max_retries {
            Some(n) => n,
            None => 3usize,
        }
    }

    /// The commit mode `build` will emit.
    pub open spec fn resolved_auto_commit(self) -> bool {
        match self.enable_auto_commit {
            Some(b) => b,
            None => false,
        }
    }

    /// The graceful-shutdown wait `build` will emit, in milliseconds.
    pub open spec fn resolved_graceful_ms(self) -> u64 {
        match self.graceful_wait_timeout_ms {
            Some(t) => t,
            None => 3_000u64,
        }
    }

    /// `c` is exactly the configuration `build` derives from this builder:
    /// each unset option replaced by its documented default.
    pub open spec fn resolves_to(self, c: KafkaConfig) -> bool {
        &&& c.brokers@ == self.brokers@
        &&& c.username@ == self.username@
        &&& c.password@ == self.password@
        &&& c.sasl_type_scram_sha@ == self.resolved_scram()
        &&& c.sasl_mechanism@ == self.resolved_mechanism()
        &&& c.security_protocol@ == self.resolved_protocol()
        &&& c.cert_path@ == self.cert_path@
        &&& c.insecure_skip_verify == self.resolved_skip_verify()
        &&& c.message_timeout_ms == self.resolved_timeout_ms()
        &&& c.message_max_bytes == self.resolved_max_bytes()
        &&& c.message_send_max_retries == self.resolved_max_retries()
        &&& c.auto_offset_reset@ == self.resolved_offset_reset()
        &&& c.enable_auto_commit == self.resolved_auto_commit()
        &&& c.graceful_wait_timeout_ms == self.resolved_graceful_ms()
    }

    /// Every constraint the resolved configuration violates, in a fixed
    /// order.
    pub open spec fn build_violations(self) -> Seq<ConfigViolation> {
        let a = if self.brokers@.len() == 0 {
            seq![ConfigViolation::EmptyBrokers]
        } else {
            Seq::<ConfigViolation>::empty()
        };
        let b = if !valid_security_protocol(self.resolved_protocol()) {
            seq![ConfigViolation::UnknownSecurityProtocol]
        } else {
            Seq::<ConfigViolation>::empty()
        };
        let c = if requires_tls(self.resolved_protocol()) && !self.resolved_skip_verify()
            && self.cert_path@.len() == 0 {
            seq![ConfigViolation::MissingCaCertPath]
        } else {
            Seq::<ConfigViolation>::empty()
        };
        let d = if !valid_scram_variant(self.resolved_scram()) {
            seq![ConfigViolation::UnknownScramVariant]
        } else {
            Seq::<ConfigViolation>::empty()
        };
        let e = if !valid_auto_offset_reset(self.resolved_offset_reset()) {
            seq![ConfigViolation::UnknownAutoOffsetReset]
        } else {
            Seq::<ConfigViolation>::empty()
        };
        let f = if self.resolved_max_bytes() == 0 {
            seq![ConfigViolation::ZeroMessageMaxBytes]
        } else {
            Seq::<ConfigViolation>::empty()
        };
        let g = if self.resolved_timeout_ms() == 0 {
            seq![ConfigViolation::ZeroMessageTimeout]
        } else {
            Seq::<ConfigViolation>::empty()
        };
        a + b + c + d + e + f + g
    }

    /// Starts a builder holding the mandatory bootstrap endpoints.
    pub fn new(brokers: &str) -> (r: Self)
        ensures
            r.fresh(brokers@),
    {
        KafkaConfigBuilder {
            brokers: brokers.to_owned(),
            username: String::new(),
            password: String::new(),
            sasl_type_scram_sha: None,
            sasl_mechanism: None,
            security_protocol: None,
            cert_path: String::new(),
            insecure_skip_verify: None,
            message_timeout_ms: None,
            message_max_bytes: None,
            message_send_max_retries: None,
            auto_offset_reset: None,
            enable_auto_commit: None,
            graceful_wait_timeout_ms: None,
        }
    }

    /// Records the SASL username.
    pub fn with_username(self, username: &str) -> (r: Self)
        ensures
            r.username@ == username@,
            r == (KafkaConfigBuilder { username: r.username, ..self }),
    {
        KafkaConfigBuilder { username: username.to_owned(), ..self }
    }

    /// Records the SASL password.
    pub fn with_password(self, password: &str) -> (r: Self)
        ensures
            r.password@ == password@,
            r == (KafkaConfigBuilder { password: r.password, ..self }),
    {
        KafkaConfigBuilder { password: password.to_owned(), ..self }
    }

    /// Records the SCRAM sub-variant; an empty string leaves it unset.
    pub fn with_sasl_type_scram_sha(self, sasl_type_scram_sha: &str) -> (r: Self)
        ensures
            sasl_type_scram_sha@.len() == 0 ==> r.sasl_type_scram_sha is None,
            sasl_type_scram_sha@.len() > 0 ==> r.sasl_type_scram_sha is Some
                && r.sasl_type_scram_sha.unwrap()@ == sasl_type_scram_sha@,
            r == (KafkaConfigBuilder { sasl_type_scram_sha: r.sasl_type_scram_sha, ..self }),
    {
        if sasl_type_scram_sha.is_empty() {
            KafkaConfigBuilder { sasl_type_scram_sha: None, ..self }
        } else {
            KafkaConfigBuilder { sasl_type_scram_sha: Some(sasl_type_scram_sha.to_owned()), ..self }
        }
    }

    /// Records the SASL mechanism family; an empty string leaves it unset.
    pub fn with_sasl_mechanism(self, mechanism: &str) -> (r: Self)
        ensures
            mechanism@.len() == 0 ==> r.sasl_mechanism is None,
            mechanism@.len() > 0 ==> r.sasl_mechanism is Some
                && r.sasl_mechanism.unwrap()@ == mechanism@,
            r == (KafkaConfigBuilder { sasl_mechanism: r.sasl_mechanism, ..self }),
    {
        if mechanism.is_empty() {
            KafkaConfigBuilder { sasl_mechanism: None, ..self }
        } else {
            KafkaConfigBuilder { sasl_mechanism: Some(mechanism.to_owned()), ..self }
        }
    }

    /// Records the transport security protocol; an empty string leaves it
    /// unset.
    pub fn with_security_protocol(self, protocol: &str) -> (r: Self)
        ensures
            protocol@.len() == 0 ==> r.security_protocol is None,
            protocol@.len() > 0 ==> r.security_protocol is Some
                && r.security_protocol.unwrap()@ == protocol@,
            r == (KafkaConfigBuilder { security_protocol: r.security_protocol, ..self }),
    {
        if protocol.is_empty() {
            KafkaConfigBuilder { security_protocol: None, ..self }
        } else {
            KafkaConfigBuilder { security_protocol: Some(protocol.to_owned()), ..self }
        }
    }

    /// Records the CA certificate path.
    pub fn with_cert_path(self, cert_path: &str) -> (r: Self)
        ensures
            r.cert_path@ == cert_path@,
            r == (KafkaConfigBuilder { cert_path: r.cert_path, ..self }),
    {
        KafkaConfigBuilder { cert_path: cert_path.to_owned(), ..self }
    }

    /// Records whether peer verification is disabled.
    pub fn with_insecure_skip_verify(self, insecure_skip_verify: bool) -> (r: Self)
        ensures
            r == (KafkaConfigBuilder {
                insecure_skip_verify: Some(insecure_skip_verify),
                ..self
            }),
    {
        KafkaConfigBuilder { insecure_skip_verify: Some(insecure_skip_verify), ..self }
    }

    /// Records the producer delivery timeout, in milliseconds.
    pub fn with_message_timeout(self, timeout_ms: u64) -> (r: Self)
        ensures
            r == (KafkaConfigBuilder { message_timeout_ms: Some(timeout_ms), ..self }),
    {
        KafkaConfigBuilder { message_timeout_ms: Some(timeout_ms), ..self }
    }

    /// Records the per-record size ceiling, in bytes.
    pub fn with_message_max_bytes(self, message_max_bytes: usize) -> (r: Self)
        ensures
            r == (KafkaConfigBuilder { message_max_bytes: Some(message_max_bytes), ..self }),
    {
        KafkaConfigBuilder { message_max_bytes: Some(message_max_bytes), ..self }
    }

    /// Records the offset-reset policy; an empty string leaves it unset.
    pub fn with_auto_offset_reset(self, auto_offset_reset: &str) -> (r: Self)
        ensures
            auto_offset_reset@.len() == 0 ==> r.auto_offset_reset is None,
            auto_offset_reset@.len() > 0 ==> r.auto_offset_reset is Some
                && r.auto_offset_reset.unwrap()@ == auto_offset_reset@,
            r == (KafkaConfigBuilder { auto_offset_reset: r.auto_offset_reset, ..self }),
    {
        if auto_offset_reset.is_empty() {
            KafkaConfigBuilder { auto_offset_reset: None, ..self }
        } else {
            KafkaConfigBuilder { auto_offset_reset: Some(auto_offset_reset.to_owned()), ..self }
        }
    }

    /// Records the graceful-shutdown wait, in milliseconds.
    pub fn with_graceful_wait_timeout(self, timeout_ms: u64) -> (r: Self)
        ensures
            r == (KafkaConfigBuilder { graceful_wait_timeout_ms: Some(timeout_ms), ..self }),
    {
        KafkaConfigBuilder { graceful_wait_timeout_ms: Some(timeout_ms), ..self }
    }

    /// Records the producer retry count.
    pub fn with_message_send_max_retries(self, max_retries: usize) -> (r: Self)
        ensures
            r == (KafkaConfigBuilder { message_send_max_retries: Some(max_retries), ..self }),
    {
        KafkaConfigBuilder { message_send_max_retries: Some(max_retries), ..self }
    }

    /// Records the commit mode.
    pub fn with_enable_auto_commit(self, enable_auto_commit: bool) -> (r: Self)
        ensures
            r == (KafkaConfigBuilder { enable_auto_commit: Some(enable_auto_commit), ..self }),
    {
        KafkaConfigBuilder { enable_auto_commit: Some(enable_auto_commit), ..self }
    }

    /// Applies defaults to every unset option, validates the invariants, and
    /// returns the configuration, or every violated constraint in order.
    #[verifier::rlimit(80)]
    pub fn build(self) -> (r: Result<KafkaConfig, Vec<ConfigViolation>>)
        ensures
            r is Ok <==> self.build_violations().len() == 0,
            r matches Ok(c) ==> self.resolves_to(c) && c.valid(),
            r matches Err(v) ==> v@ == self.build_violations() && v@.len() > 0,
    {
        let ghost b = self;
        let cfg = KafkaConfig {
            brokers: self.brokers,
            username: self.username,
            password: self.password,
            sasl_type_scram_sha: match self.sasl_type_scram_sha {
                Some(s) => s,
                None => "SCRAM-SHA-256".to_owned(),
            },
            sasl_mechanism: match self.sasl_mechanism {
                Some(s) => s,
                None => "PLAIN".to_owned(),
            },
            security_protocol: match self.security_protocol {
                Some(s) => s,
                None => "PLAINTEXT".to_owned(),
            },
            cert_path: self.cert_path,
            insecure_skip_verify: self.insecure_skip_verify.unwrap_or(false),
            message_timeout_ms: self.message_timeout_ms.unwrap_or(10_000),
            message_max_bytes: self.message_max_bytes.unwrap_or(1_048_576),
            message_send_max_retries: self.message_send_max_retries.unwrap_or(3),
            auto_offset_reset: match self.auto_offset_reset {
                Some(s) => s,
                None => "latest".to_owned(),
            },
            enable_auto_commit: self.enable_auto_commit.unwrap_or(false),
            graceful_wait_timeout_ms: self.graceful_wait_timeout_ms.unwrap_or(3_000),
        };
        proof {
            assert(b.resolves_to(cfg));
        }
        let mut violations: Vec<ConfigViolation> = Vec::new();
        if cfg.brokers.as_str().is_empty() {
            violations.push(ConfigViolation::EmptyBrokers);
        }
        let protocol = cfg.security_protocol.as_str();
        let protocol_known = str_eq(protocol, "PLAINTEXT") || str_eq(protocol, "SASL_PLAINTEXT")
            || str_eq(protocol, "SASL_SSL") || str_eq(protocol, "SSL");
        if !protocol_known {
            violations.push(ConfigViolation::UnknownSecurityProtocol);
        }
        let tls = str_eq(protocol, "SASL_SSL") || str_eq(protocol, "SSL");
        if tls && !cfg.insecure_skip_verify && cfg.cert_path.as_str().is_empty() {
            violations.push(ConfigViolation::MissingCaCertPath);
        }
        let scram = cfg.sasl_type_scram_sha.as_str();
        if !(str_eq(scram, "SCRAM-SHA-256") || str_eq(scram, "SCRAM-SHA-512")) {
            violations.push(ConfigViolation::UnknownScramVariant);
        }
        let reset = cfg.auto_offset_reset.as_str();
        if !(str_eq(reset, "latest") || str_eq(reset, "earliest")) {
            violations.push(ConfigViolation::UnknownAutoOffsetReset);
        }
        if cfg.message_max_bytes == 0 {
            violations.push(ConfigViolation::ZeroMessageMaxBytes);
        }
        if cfg.message_timeout_ms == 0 {
            violations.push(ConfigViolation::ZeroMessageTimeout);
        }
        proof {
            assert(violations@ =~= b.build_violations());
        }
        if violations.len() == 0 {
            Ok(cfg)
        } else {
            Err(violations)
        }
    }
}

} // verus!
