use upki_openssl::openssl::{VerifyError, NULL};
use upki_openssl::upki_openssl_verify_callback;
use upki_openssl::verify::{encoded_len, Cursor, RevocationStatus, Step, Verification};

const STORE_CTX: usize = 0x1000;
const SSL_CTX: usize = 0x3000;

#[derive(Clone, Debug, PartialEq)]
enum Done {
    Taken(usize, usize),
    NewConfig,
    Checked(usize, Vec<Vec<u8>>),
    Error(usize, i32),
    Freed(usize),
}

#[derive(Clone)]
struct Cert {
    x509: usize,
    len: i32,
    buffer: usize,
    bytes: Vec<u8>,
}

fn cert(at: usize, bytes: &[u8]) -> Cert {
    Cert { x509: at, len: bytes.len() as i32, buffer: at + 1, bytes: bytes.to_vec() }
}

/// Answers to all the calls of a verification.
struct Host {
    error_depth: i32,
    chain: usize,
    count: i32,
    certs: Vec<Cert>,
    ssl: usize,
    ssl_ctx: usize,
    index: Option<i32>,
    stored: usize,
    new_config: usize,
    status: RevocationStatus,
    steps: Vec<Step>,
    done: Vec<Done>,
}

impl Host {
    fn new() -> Self {
        Host {
            error_depth: 0,
            chain: 0x2000,
            count: 2,
            certs: vec![cert(0x10, &[1, 2, 3]), cert(0x20, &[4])],
            ssl: 0x2500,
            ssl_ctx: SSL_CTX,
            index: Some(4),
            stored: 0x4000,
            new_config: 0x5000,
            status: RevocationStatus::NotRevoked,
            steps: Vec::new(),
            done: Vec::new(),
        }
    }

    fn verify(&mut self, preverify_ok: i32) -> i32 {
        let mut v: Verification = upki_openssl_verify_callback(preverify_ok, STORE_CTX);
        loop {
            assert_eq!(v.store_ctx(), STORE_CTX);
            let step = v.step();
            self.steps.push(step);
            v = match step {
                Step::ErrorDepth => v.error_depth(self.error_depth),
                Step::Chain => v.chain(self.chain),
                Step::ChainLength { stack } => {
                    assert_eq!(stack, self.chain);
                    v.chain_length(self.count)
                }
                Step::ChainItem { cursor } => {
                    assert_eq!(cursor.stack, self.chain);
                    v.chain_item(self.certs[cursor.index as usize].x509)
                }
                Step::Encode { cursor, x509 } => {
                    let cert = &self.certs[cursor.index as usize];
                    assert_eq!(x509, cert.x509);
                    v.encode(cert.len, cert.buffer)
                }
                Step::TakeBuffer { cursor, buffer, len } => {
                    let cert = &self.certs[cursor.index as usize];
                    assert_eq!(buffer, cert.buffer);
                    self.done.push(Done::Taken(buffer, len));
                    v.take_buffer(cert.bytes.clone())
                }
                Step::SslIndex => v.ssl_index(9),
                Step::Ssl { index } => {
                    assert_eq!(index, 9);
                    v.ssl(self.ssl)
                }
                Step::SslCtx { ssl } => {
                    assert_eq!(ssl, self.ssl);
                    v.ssl_ctx(self.ssl_ctx)
                }
                Step::ConfigIndex { .. } => v.config_index(self.index),
                Step::StoredConfig { ssl_ctx, index } => {
                    assert_eq!((ssl_ctx, Some(index)), (self.ssl_ctx, self.index));
                    v.stored_config(self.stored)
                }
                Step::NewConfig => {
                    self.done.push(Done::NewConfig);
                    v.new_config(0, self.new_config)
                }
                Step::CheckRevocation { config } => {
                    let certs = v.certs().iter().map(|c| c.to_vec()).collect();
                    self.done.push(Done::Checked(config.as_ptr(), certs));
                    v.check_revocation(self.status)
                }
                Step::SetError { error, .. } => {
                    self.done.push(Done::Error(v.store_ctx(), error.code()));
                    v.set_error()
                }
                Step::FreeConfig { owned, .. } => {
                    self.done.push(Done::Freed(owned));
                    v.free_config()
                }
                Step::Return { result } => return result,
            };
        }
    }

    fn errors(&self) -> Vec<Done> {
        self.done.iter().filter(|d| matches!(d, Done::Error(_, _))).cloned().collect()
    }
}

fn whole_chain() -> Vec<Vec<u8>> {
    vec![vec![1, 2, 3], vec![4]]
}

#[test]
fn error_codes_are_those_of_openssl() {
    assert_eq!(VerifyError::CertRevoked.code(), 23);
    assert_eq!(VerifyError::ApplicationVerification.code(), 50);
}

#[test]
fn failed_preverification_returns_zero_without_a_call() {
    let mut host = Host::new();
    assert_eq!(host.verify(0), 0);
    assert_eq!(host.steps, vec![Step::Return { result: 0 }]);
    assert_eq!(upki_openssl_verify_callback(0, NULL).step(), Step::Return { result: 0 });
}

#[test]
fn null_store_context_fails() {
    assert_eq!(upki_openssl_verify_callback(1, NULL).step(), Step::Return { result: 0 });
}

#[test]
fn certificates_above_the_leaf_are_skipped() {
    for depth in [1, 2, -1] {
        let mut host = Host::new();
        host.error_depth = depth;
        host.status = RevocationStatus::Revoked;
        assert_eq!(host.verify(1), 1);
        assert_eq!(host.steps, vec![Step::ErrorDepth, Step::Return { result: 1 }]);
    }
}

#[test]
fn missing_chain_fails() {
    let mut host = Host::new();
    host.chain = NULL;
    assert_eq!(host.verify(1), 0);
    assert!(host.done.is_empty());
}

#[test]
fn negative_chain_length_fails() {
    let mut host = Host::new();
    host.count = -1;
    assert_eq!(host.verify(1), 0);
    assert!(host.done.is_empty());
}

#[test]
fn empty_chain_is_refused_with_an_error() {
    let mut host = Host::new();
    host.count = 0;
    assert_eq!(host.verify(1), 0);
    assert_eq!(host.done, vec![Done::Error(STORE_CTX, 50)]);
}

#[test]
fn missing_certificate_fails() {
    let mut host = Host::new();
    host.certs[1].x509 = NULL;
    assert_eq!(host.verify(1), 0);
    assert_eq!(host.done, vec![Done::Taken(0x11, 3)]);
}

#[test]
fn certificate_that_cannot_be_encoded_fails() {
    for (len, buffer) in [(0, 0x11), (-1, NULL), (-1, 0x11), (3, NULL)] {
        let mut host = Host::new();
        host.certs[0].len = len;
        host.certs[0].buffer = buffer;
        assert_eq!(host.verify(1), 0);
        assert!(host.done.is_empty());
    }
}

#[test]
fn encoding_needs_a_length_and_a_buffer() {
    assert_eq!(encoded_len(3, 0x11), Some(3));
    assert_eq!(encoded_len(i32::MAX, 1), Some(i32::MAX as usize));
    assert_eq!(encoded_len(0, 0x11), None);
    assert_eq!(encoded_len(-1, 0x11), None);
    assert_eq!(encoded_len(3, NULL), None);
}

#[test]
fn whole_chain_is_checked_in_order() {
    let mut host = Host::new();
    assert_eq!(host.verify(1), 1);
    assert_eq!(
        host.done,
        vec![Done::Taken(0x11, 3), Done::Taken(0x21, 1), Done::Checked(0x4000, whole_chain())]
    );
}

#[test]
fn checked_certificates_have_the_lengths_of_their_encodings() {
    let mut host = Host::new();
    host.certs = vec![cert(0x10, &[7; 300]), cert(0x20, &[8])];
    host.verify(1);
    assert_eq!(
        host.done,
        vec![
            Done::Taken(0x11, 300),
            Done::Taken(0x21, 1),
            Done::Checked(0x4000, vec![vec![7; 300], vec![8]]),
        ]
    );
}

#[test]
fn calls_come_in_their_order() {
    let mut host = Host::new();
    host.count = 1;
    host.stored = NULL;
    host.status = RevocationStatus::Revoked;
    assert_eq!(host.verify(1), 0);
    let cursor = Cursor { stack: 0x2000, index: 0, count: 1 };
    let config = upki_openssl::config::UpkiConfig::Owned(0x5000);
    assert_eq!(
        host.steps,
        vec![
            Step::ErrorDepth,
            Step::Chain,
            Step::ChainLength { stack: 0x2000 },
            Step::ChainItem { cursor },
            Step::Encode { cursor, x509: 0x10 },
            Step::TakeBuffer { cursor, buffer: 0x11, len: 3 },
            Step::SslIndex,
            Step::Ssl { index: 9 },
            Step::SslCtx { ssl: 0x2500 },
            Step::ConfigIndex { ssl_ctx: SSL_CTX },
            Step::StoredConfig { ssl_ctx: SSL_CTX, index: 4 },
            Step::NewConfig,
            Step::CheckRevocation { config },
            Step::SetError { error: VerifyError::CertRevoked, in_use: Some(config) },
            Step::FreeConfig { owned: 0x5000, result: 0 },
            Step::Return { result: 0 },
        ]
    );
}

#[test]
fn revoked_chain_is_refused() {
    let mut host = Host::new();
    host.status = RevocationStatus::Revoked;
    assert_eq!(host.verify(1), 0);
    assert_eq!(host.errors(), vec![Done::Error(STORE_CTX, 23)]);
}

#[test]
fn undetermined_status_is_refused() {
    for code in [0, 1, u32::MAX] {
        let mut host = Host::new();
        host.status = RevocationStatus::Undetermined(code);
        assert_eq!(host.verify(1), 0);
        assert_eq!(host.errors(), vec![Done::Error(STORE_CTX, 50)]);
    }
}

#[test]
fn chain_that_is_not_covered_or_not_revoked_passes() {
    for status in [RevocationStatus::NotCovered, RevocationStatus::NotRevoked] {
        for preverify_ok in [1, 2, -1] {
            let mut host = Host::new();
            host.status = status;
            assert_eq!(host.verify(preverify_ok), preverify_ok);
            assert!(host.errors().is_empty());
        }
    }
}

#[test]
fn statuses_have_their_errors() {
    assert_eq!(RevocationStatus::Revoked.verify_error(), Some(VerifyError::CertRevoked));
    assert_eq!(RevocationStatus::NotCovered.verify_error(), None);
    assert_eq!(RevocationStatus::NotRevoked.verify_error(), None);
    assert_eq!(
        RevocationStatus::Undetermined(3).verify_error(),
        Some(VerifyError::ApplicationVerification)
    );
}

#[test]
fn stored_config_is_used_and_kept() {
    let mut host = Host::new();
    host.status = RevocationStatus::Revoked;
    host.verify(1);
    assert!(host.done.contains(&Done::Checked(0x4000, whole_chain())));
    assert!(!host.done.contains(&Done::NewConfig));
    assert!(!host.done.iter().any(|d| matches!(d, Done::Freed(_))));
}

#[test]
fn defaults_are_used_without_a_stored_config() {
    let mut hosts = vec![Host::new(), Host::new(), Host::new(), Host::new()];
    hosts[0].ssl = NULL;
    hosts[1].ssl_ctx = NULL;
    hosts[2].index = None;
    hosts[3].stored = NULL;
    for host in &mut hosts {
        assert_eq!(host.verify(1), 1);
        assert_eq!(
            host.done[2..],
            [Done::NewConfig, Done::Checked(0x5000, whole_chain()), Done::Freed(0x5000)]
        );
    }
}

#[test]
fn index_is_asked_for_without_an_ssl_context() {
    let mut host = Host::new();
    host.ssl = NULL;
    host.verify(1);
    assert!(host.steps.contains(&Step::ConfigIndex { ssl_ctx: NULL }));
    assert!(!host.steps.iter().any(|s| matches!(s, Step::SslCtx { .. } | Step::StoredConfig { .. })));
}

#[test]
fn own_config_is_freed_after_a_refusal() {
    let mut host = Host::new();
    host.stored = NULL;
    host.status = RevocationStatus::Undetermined(7);
    assert_eq!(host.verify(1), 0);
    assert_eq!(host.done[4..], [Done::Error(STORE_CTX, 50), Done::Freed(0x5000)]);
}

#[test]
fn failure_to_make_a_config_is_refused() {
    let mut host = Host::new();
    host.stored = NULL;
    host.new_config = NULL;
    assert_eq!(host.verify(1), 0);
    assert_eq!(
        host.done,
        vec![
            Done::Taken(0x11, 3),
            Done::Taken(0x21, 1),
            Done::NewConfig,
            Done::Error(STORE_CTX, 50),
        ]
    );
}

#[test]
fn no_step_is_repeated() {
    let mut host = Host::new();
    host.count = 40;
    host.certs = (0..40).map(|i| cert(0x100 + 2 * i, &[i as u8])).collect();
    assert_eq!(host.verify(1), 1);
    for (i, step) in host.steps.iter().enumerate() {
        assert!(!host.steps[..i].contains(step));
    }
    assert_eq!(host.steps.len(), 3 + 3 * 40 + 5 + 1 + 1);
}
