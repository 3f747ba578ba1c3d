//! Vendor registry.

use vstd::prelude::*;

use crate::common::contracts::RoutePlan;
use crate::common::names::NameMap;
use crate::common::text;
use crate::executor::config;
use crate::executor::config::{ExecutorConfig, OpenAIConfig};
use crate::executor::error::ExecutorError;
use crate::executor::vendors::openai::OpenAIVendor;

verus! {

/// Registered vendors by vendor identifier.
///
/// Holds no retry or fallback rule: those belong to the service layer.
pub struct ExecutorRepository {
    /// Vendor registry: vendor_id → vendor
    pub vendors: NameMap<OpenAIVendor>,
}

/// Whether a repository holds exactly the vendors that a configuration names.
pub open spec fn is_registry_of(
    repository: Result<ExecutorRepository, ExecutorError>,
    openai: Option<OpenAIConfig>,
) -> bool {
    match openai {
        None => repository matches Err(error) && error is NoVendorsConfigured,
        Some(openai) => if text::trimmed(openai.api_key@).len() == 0 {
            repository matches Err(error) && error is InvalidConfiguration
        } else {
            repository matches Ok(repository) && repository.vendors@ == Map::<
                Seq<char>,
                OpenAIVendor,
            >::empty().insert("openai"@, OpenAIVendor { config: openai })
                && repository.vendors.names() == seq!["openai"@]
        },
    }
}

impl ExecutorRepository {
    /// Creates a repository with every configured vendor.
    ///
    /// # Errors
    /// - `NoVendorsConfigured` if no vendors are configured
    /// - `InvalidConfiguration` if a vendor's credential is blank
    pub fn from_config(config: ExecutorConfig) -> (repository: Result<
        ExecutorRepository,
        ExecutorError,
    >)
        ensures
            is_registry_of(repository, config.openai),
    {
        let mut vendors: NameMap<OpenAIVendor> = NameMap::new();
        match config.openai {
            Some(openai) => {
                let vendor: OpenAIVendor = match OpenAIVendor::new(openai) {
                    Ok(vendor) => vendor,
                    Err(error) => {
                        return Err(error);
                    },
                };
                vendors.insert("openai".to_owned(), vendor);
                assert(vendors.names() =~= seq!["openai"@]);
            },
            None => {
                return Err(ExecutorError::NoVendorsConfigured);
            },
        }
        Ok(ExecutorRepository { vendors })
    }

    /// Returns the number of registered vendors.
    pub fn vendor_count(&self) -> (count: usize)
        ensures
            count == self.vendors.names().len(),
    {
        self.vendors.len()
    }

    /// Lists all registered vendor names.
    pub fn list_vendor_names(&self) -> (names: Vec<String>)
        ensures
            config::texts(names@) == self.vendors.names(),
    {
        let mut names: Vec<String> = Vec::new();
        let count: usize = self.vendors.len();
        let mut i: usize = 0;
        while i < count
            invariant
                i <= count,
                count == self.vendors.names().len(),
                names@.len() == i,
                forall|k: int| 0 <= k < i ==> (#[trigger] names@[k])@ == self.vendors.names()[k],
            decreases count - i,
        {
            names.push(self.vendors.entry(i).0.to_owned());
            i += 1;
        }
        assert(config::texts(names@) =~= self.vendors.names());
        names
    }

    /// Selects vendor by vendor_id.
    ///
    /// # Errors
    /// Returns `UnsupportedVendor` if vendor_id is not found in registry
    pub fn get_vendor(&self, vendor_id: &str) -> (vendor: Result<&OpenAIVendor, ExecutorError>)
        ensures
            if self.vendors@.contains_key(vendor_id@) {
                vendor matches Ok(vendor) && *vendor == self.vendors@[vendor_id@]
            } else {
                vendor matches Err(ExecutorError::UnsupportedVendor(id)) && id@ == vendor_id@
            },
    {
        match self.vendors.get(vendor_id) {
            Some(vendor) => Ok(vendor),
            None => Err(ExecutorError::UnsupportedVendor(vendor_id.to_owned())),
        }
    }

    /// Selects the vendor that a hop's call goes to.
    ///
    /// # Errors
    /// - `UnsupportedVendor` if the hop's vendor is not registered
    /// - `UnsupportedModel` if that vendor does not support the hop's model
    pub fn vendor_for(&self, plan: &RoutePlan) -> (vendor: Result<&OpenAIVendor, ExecutorError>)
        ensures
            if !self.vendors@.contains_key(plan.vendor_id@) {
                vendor matches Err(ExecutorError::UnsupportedVendor(id)) && id@ == plan.vendor_id@
            } else if !config::texts(
                self.vendors@[plan.vendor_id@].config.supported_models@,
            ).contains(plan.model_id@) {
                vendor matches Err(ExecutorError::UnsupportedModel(v, m)) && v@ == plan.vendor_id@
                    && m@ == plan.model_id@
            } else {
                vendor matches Ok(vendor) && *vendor == self.vendors@[plan.vendor_id@]
            },
    {
        let vendor: &OpenAIVendor = match self.get_vendor(plan.vendor_id.as_str()) {
            Ok(vendor) => vendor,
            Err(error) => {
                return Err(error);
            },
        };
        if !vendor.supports_model(plan.model_id.as_str()) {
            return Err(
                ExecutorError::UnsupportedModel(plan.vendor_id.clone(), plan.model_id.clone()),
            );
        }
        Ok(vendor)
    }
}

} // verus!
