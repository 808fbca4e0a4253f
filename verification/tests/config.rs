use upki_openssl::config::{config_index, ConfigUpdate, UpdateStep, UpkiConfig};
use upki_openssl::openssl::NULL;
use upki_openssl::upki_openssl_set_config;

/// The place for a configuration in an `SSL_CTX`.
struct Context {
    address: usize,
    index: Option<i32>,
    stored: usize,
    freed: Vec<usize>,
}

impl Context {
    fn new(address: usize) -> Self {
        Context { address, index: Some(7), stored: NULL, freed: Vec::new() }
    }

    fn set(&mut self, config: usize) {
        let mut update: ConfigUpdate = upki_openssl_set_config(self.address, config);
        loop {
            update = match update.step {
                UpdateStep::ConfigIndex => update.config_index(self.index),
                UpdateStep::StoredConfig { index } => {
                    assert_eq!(Some(index), self.index);
                    update.stored_config(self.stored)
                }
                UpdateStep::FreeConfig { index, previous } => {
                    assert_eq!(Some(index), self.index);
                    self.freed.push(previous);
                    update.free_config()
                }
                UpdateStep::StoreConfig { index } => {
                    assert_eq!(Some(index), self.index);
                    assert_eq!(update.ctx, self.address);
                    self.stored = update.config;
                    update.store_config()
                }
                UpdateStep::Done => return,
            };
        }
    }
}

#[test]
fn setting_a_config_stores_it() {
    let mut ctx = Context::new(0x100);
    ctx.set(0x10);
    assert_eq!(ctx.stored, 0x10);
    assert_eq!(ctx.freed, vec![NULL]);
}

#[test]
fn setting_a_config_frees_the_previous_one_first() {
    let update = upki_openssl_set_config(0x100, 0x20);
    assert_eq!(update.step, UpdateStep::ConfigIndex);
    let update = update.config_index(Some(3));
    assert_eq!(update.step, UpdateStep::StoredConfig { index: 3 });
    let update = update.stored_config(0x10);
    assert_eq!(update.step, UpdateStep::FreeConfig { index: 3, previous: 0x10 });
    let update = update.free_config();
    assert_eq!(update.step, UpdateStep::StoreConfig { index: 3 });
    assert_eq!((update.ctx, update.config), (0x100, 0x20));
    let update = update.store_config();
    assert_eq!(update.step, UpdateStep::Done);
}

#[test]
fn null_context_is_left_alone() {
    assert_eq!(upki_openssl_set_config(NULL, 0x10).step, UpdateStep::Done);
    assert_eq!(upki_openssl_set_config(NULL, NULL).step, UpdateStep::Done);
}

#[test]
fn without_an_index_nothing_is_stored() {
    let mut ctx = Context::new(0x100);
    ctx.index = None;
    ctx.set(0x10);
    assert_eq!(ctx.stored, NULL);
    assert!(ctx.freed.is_empty());
}

#[test]
fn null_config_frees_the_previous_one() {
    let mut ctx = Context::new(0x100);
    ctx.set(0x10);
    ctx.set(NULL);
    assert_eq!(ctx.stored, NULL);
    assert_eq!(ctx.freed, vec![NULL, 0x10]);
}

#[test]
fn each_config_is_freed_once_in_order() {
    let mut ctx = Context::new(0x100);
    for config in [0x10, 0x20, 0x30] {
        ctx.set(config);
        assert_eq!(ctx.stored, config);
        assert!(!ctx.freed.contains(&ctx.stored));
    }
    ctx.freed.push(ctx.stored);
    assert_eq!(ctx.freed, vec![NULL, 0x10, 0x20, 0x30]);
}

#[test]
fn failed_index_allocation_gives_no_index() {
    assert_eq!(config_index(-1), None);
    assert_eq!(config_index(0), Some(0));
    assert_eq!(config_index(5), Some(5));
    assert_eq!(config_index(-2), Some(-2));
}

#[test]
fn config_of_the_context_is_borrowed() {
    assert_eq!(UpkiConfig::from_context(NULL), None);
    let config = UpkiConfig::from_context(0x10).unwrap();
    assert_eq!(config, UpkiConfig::FromContext(0x10));
    assert_eq!(config.as_ptr(), 0x10);
    assert_eq!(config.owned(), None);
}

#[test]
fn config_from_defaults_is_owned() {
    assert_eq!(UpkiConfig::from_defaults(2, NULL), Err(2));
    let config = UpkiConfig::from_defaults(0, 0x20).unwrap();
    assert_eq!(config, UpkiConfig::Owned(0x20));
    assert_eq!(config.as_ptr(), 0x20);
    assert_eq!(config.owned(), Some(0x20));
}

#[test]
fn only_the_output_tells_whether_a_config_was_made() {
    assert_eq!(UpkiConfig::from_defaults(0, NULL), Err(0));
    assert_eq!(UpkiConfig::from_defaults(9, 0x20), Ok(UpkiConfig::Owned(0x20)));
}
