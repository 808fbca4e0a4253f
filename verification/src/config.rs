//! The upki configuration that belongs to an `SSL_CTX`, and the one that a
//! verification uses.

use vstd::prelude::*;

use crate::openssl::{Address, NULL};

verus! {

/// The configuration that a verification uses.
#[derive(Clone, Copy, PartialEq, Eq, Structural, Debug)]
pub enum UpkiConfig {
    /// Stored in the `SSL_CTX`, which keeps owning it.
    FromContext(Address),
    /// Made from the defaults for one verification, which has to free it.
    Owned(Address),
}

impl UpkiConfig {
    /// Where the configuration is.
    pub open spec fn address(self) -> Address {
        match self {
            UpkiConfig::FromContext(ptr) => ptr,
            UpkiConfig::Owned(ptr) => ptr,
        }
    }

    /// What has to be freed once the configuration is no longer used.
    pub open spec fn to_free(self) -> Option<Address> {
        match self {
            UpkiConfig::FromContext(_) => None,
            UpkiConfig::Owned(ptr) => Some(ptr),
        }
    }

    /// The configuration stored in the `SSL_CTX`, where `stored` is what
    /// `SSL_CTX_get_ex_data` gave for it, or `NULL` where it was not asked.
    pub fn from_context(stored: Address) -> (config: Option<UpkiConfig>)
        ensures
            config == (if stored == NULL {
                None
            } else {
                Some(UpkiConfig::FromContext(stored))
            }),
    {
        if stored == NULL {
            None
        } else {
            Some(UpkiConfig::FromContext(stored))
        }
    }

    /// The configuration that `upki_config_new` made, where it returned `code`
    /// and left `ptr` as its output.
    pub fn from_defaults(code: u32, ptr: Address) -> (config: Result<UpkiConfig, u32>)
        ensures
            config == (if ptr == NULL {
                Err::<UpkiConfig, u32>(code)
            } else {
                Ok(UpkiConfig::Owned(ptr))
            }),
    {
        if ptr == NULL {
            Err(code)
        } else {
            Ok(UpkiConfig::Owned(ptr))
        }
    }

    /// Where the configuration is.
    pub fn as_ptr(&self) -> (ptr: Address)
        ensures
            ptr == self.address(),
            *self == UpkiConfig::FromContext(ptr) || *self == UpkiConfig::Owned(ptr),
    {
        match self {
            UpkiConfig::FromContext(ptr) => *ptr,
            UpkiConfig::Owned(ptr) => *ptr,
        }
    }

    /// What has to be freed once the configuration is no longer used.
    pub fn owned(&self) -> (ptr: Option<Address>)
        ensures
            ptr == self.to_free(),
            *self is FromContext ==> ptr is None,
            *self is Owned ==> ptr is Some && *self == UpkiConfig::Owned(ptr->0),
    {
        match self {
            UpkiConfig::FromContext(_) => None,
            UpkiConfig::Owned(ptr) => Some(*ptr),
        }
    }
}

/// The `ex_data` index for configurations, from what `CRYPTO_get_ex_new_index`
/// returned: none where that is its failure value.
pub fn config_index(index: i32) -> (usable: Option<i32>)
    ensures
        usable == (if index == -1 {
            None
        } else {
            Some(index)
        }),
{
    if index == -1 {
        None
    } else {
        Some(index)
    }
}

/// What replacing the configuration of an `SSL_CTX` does next.
#[derive(Clone, Copy, PartialEq, Eq, Structural, Debug)]
pub enum UpdateStep {
    /// Get the `ex_data` index for configurations.
    ConfigIndex,
    /// Call `SSL_CTX_get_ex_data` on the `SSL_CTX` with `index`.
    StoredConfig { index: i32 },
    /// Call `upki_config_free` on `previous`, which may be `NULL`.
    FreeConfig { index: i32, previous: Address },
    /// Call `SSL_CTX_set_ex_data` on the `SSL_CTX` with `index` and the new
    /// configuration.
    StoreConfig { index: i32 },
    /// Nothing is left to do.
    Done,
}

/// The replacement of the configuration of an `SSL_CTX`, while it is under way.
///
/// `step` is the call to make next. Its outcome goes to the method of the same
/// name, which gives what comes after it.
#[derive(Clone, Copy, PartialEq, Eq, Structural, Debug)]
pub struct ConfigUpdate {
    pub ctx: Address,
    pub config: Address,
    pub step: UpdateStep,
}

/// Sets the upki configuration to use for connections based upon `ctx`.
///
/// `config` becomes owned by the `SSL_CTX`, and the previous configuration is
/// freed. Does nothing if `ctx` is `NULL`.
pub fn upki_openssl_set_config(ctx: Address, config: Address) -> (update: ConfigUpdate)
    ensures
        update == ConfigUpdate::start(ctx, config),
        update.ctx == ctx,
        update.config == config,
        ctx == NULL ==> update.step is Done,
        ctx != NULL ==> update.step is ConfigIndex,
{
    let step = if ctx == NULL {
        UpdateStep::Done
    } else {
        UpdateStep::ConfigIndex
    };
    ConfigUpdate { ctx, config, step }
}

impl ConfigUpdate {
    /// At the start. Without an `SSL_CTX` there is nothing to do.
    pub open spec fn start(ctx: Address, config: Address) -> ConfigUpdate {
        ConfigUpdate {
            ctx,
            config,
            step: if ctx == NULL {
                UpdateStep::Done
            } else {
                UpdateStep::ConfigIndex
            },
        }
    }

    /// After the index was obtained: without one nothing can be stored.
    pub open spec fn after_config_index(self, index: Option<i32>) -> ConfigUpdate {
        let step = match index {
            None => UpdateStep::Done,
            Some(index) => UpdateStep::StoredConfig { index },
        };
        ConfigUpdate { step, ..self }
    }

    /// After the configuration stored so far was looked up.
    pub open spec fn after_stored_config(self, previous: Address) -> ConfigUpdate {
        let index = self.step->StoredConfig_index;
        ConfigUpdate { step: UpdateStep::FreeConfig { index, previous }, ..self }
    }

    /// After the configuration stored so far was freed.
    pub open spec fn after_free_config(self) -> ConfigUpdate {
        let index = self.step->FreeConfig_index;
        ConfigUpdate { step: UpdateStep::StoreConfig { index }, ..self }
    }

    /// After the new configuration was stored.
    pub open spec fn after_store_config(self) -> ConfigUpdate {
        ConfigUpdate { step: UpdateStep::Done, ..self }
    }

    /// Goes on with the index for configurations, if there is one.
    pub fn config_index(self, index: Option<i32>) -> (next: ConfigUpdate)
        requires
            self.step is ConfigIndex,
        ensures
            next == self.after_config_index(index),
            next.ctx == self.ctx && next.config == self.config,
            index is None ==> next.step is Done,
            index is Some ==> next.step == (UpdateStep::StoredConfig { index: index->0 }),
    {
        let step = match index {
            None => UpdateStep::Done,
            Some(index) => UpdateStep::StoredConfig { index },
        };
        ConfigUpdate { step, ..self }
    }

    /// Goes on with what `SSL_CTX_get_ex_data` returned.
    pub fn stored_config(self, previous: Address) -> (next: ConfigUpdate)
        requires
            self.step is StoredConfig,
        ensures
            next == self.after_stored_config(previous),
            next.ctx == self.ctx && next.config == self.config,
            self.step matches UpdateStep::StoredConfig { index } ==> next.step == (
            UpdateStep::FreeConfig { index, previous }),
    {
        match self.step {
            UpdateStep::StoredConfig { index } => ConfigUpdate {
                step: UpdateStep::FreeConfig { index, previous },
                ..self
            },
            _ => self,
        }
    }

    /// Goes on after `upki_config_free`.
    pub fn free_config(self) -> (next: ConfigUpdate)
        requires
            self.step is FreeConfig,
        ensures
            next == self.after_free_config(),
            next.ctx == self.ctx && next.config == self.config,
            self.step matches UpdateStep::FreeConfig { index, .. } ==> next.step == (
            UpdateStep::StoreConfig { index }),
    {
        match self.step {
            UpdateStep::FreeConfig { index, .. } => ConfigUpdate {
                step: UpdateStep::StoreConfig { index },
                ..self
            },
            _ => self,
        }
    }

    /// Goes on after `SSL_CTX_set_ex_data`.
    pub fn store_config(self) -> (next: ConfigUpdate)
        requires
            self.step is StoreConfig,
        ensures
            next == self.after_store_config(),
            next.ctx == self.ctx && next.config == self.config,
            next.step is Done,
    {
        ConfigUpdate { step: UpdateStep::Done, ..self }
    }
}

} // verus!
