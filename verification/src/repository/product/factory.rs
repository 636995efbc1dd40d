//! The product module's shared caches, and the repositories built on them
//! for each unit of work.

use vstd::prelude::*;
use crate::cache::{IdxModelCache, MainModelCache};
use crate::models::account_gl_mapping::{AccountGlMappingIdxModel, AccountGlMappingModel};
use crate::models::fee_type_gl_mapping::FeeTypeGlMappingIdxModel;
use crate::models::interest_rate_tier::InterestRateTierIdxModel;
use crate::models::product::ProductIdxModel;
use crate::repository::product::account_gl_mapping_repository::AccountGlMappingRepositoryImpl;
use crate::repository::product::fee_type_gl_mapping_repository::FeeTypeGlMappingRepositoryImpl;
use crate::repository::product::interest_rate_tier_repository::InterestRateTierRepositoryImpl;
use crate::repository::product::product_repository::ProductRepositoryImpl;

verus! {

/// Holds the committed caches of the product module; each unit of work gets
/// repositories that start from them, and hands back what it committed.
pub struct ProductRepoFactory {
    account_gl_mapping_idx_cache: IdxModelCache<AccountGlMappingIdxModel>,
    account_gl_mapping_cache: MainModelCache<AccountGlMappingModel>,
    fee_type_gl_mapping_idx_cache: IdxModelCache<FeeTypeGlMappingIdxModel>,
    interest_rate_tier_idx_cache: IdxModelCache<InterestRateTierIdxModel>,
    product_idx_cache: IdxModelCache<ProductIdxModel>,
}

/// The repositories of the product module for one unit of work.
pub struct ProductRepositories {
    pub account_gl_mapping_repository: AccountGlMappingRepositoryImpl,
    pub fee_type_gl_mapping_repository: FeeTypeGlMappingRepositoryImpl,
    pub interest_rate_tier_repository: InterestRateTierRepositoryImpl,
    pub product_repository: ProductRepositoryImpl,
}

impl ProductRepoFactory {
    pub closed spec fn wf(&self) -> bool {
        &&& self.account_gl_mapping_idx_cache.wf()
        &&& self.account_gl_mapping_cache.wf()
        &&& self.fee_type_gl_mapping_idx_cache.wf()
        &&& self.interest_rate_tier_idx_cache.wf()
        &&& self.product_idx_cache.wf()
    }

    pub closed spec fn account_gl_mapping_idx_view(&self) -> Map<u128, AccountGlMappingIdxModel> {
        self.account_gl_mapping_idx_cache@
    }

    pub closed spec fn account_gl_mapping_view(&self) -> Map<u128, AccountGlMappingModel> {
        self.account_gl_mapping_cache@
    }

    pub closed spec fn fee_type_gl_mapping_idx_view(&self) -> Map<u128, FeeTypeGlMappingIdxModel> {
        self.fee_type_gl_mapping_idx_cache@
    }

    pub closed spec fn interest_rate_tier_idx_view(&self) -> Map<u128, InterestRateTierIdxModel> {
        self.interest_rate_tier_idx_cache@
    }

    pub closed spec fn product_idx_view(&self) -> Map<u128, ProductIdxModel> {
        self.product_idx_cache@
    }

    /// A factory whose caches are all empty.
    pub fn new() -> (f: Self)
        ensures
            f.wf(),
            f.account_gl_mapping_idx_view() == Map::<u128, AccountGlMappingIdxModel>::empty(),
            f.account_gl_mapping_view() == Map::<u128, AccountGlMappingModel>::empty(),
            f.fee_type_gl_mapping_idx_view() == Map::<u128, FeeTypeGlMappingIdxModel>::empty(),
            f.interest_rate_tier_idx_view() == Map::<u128, InterestRateTierIdxModel>::empty(),
            f.product_idx_view() == Map::<u128, ProductIdxModel>::empty(),
    {
        ProductRepoFactory {
            account_gl_mapping_idx_cache: IdxModelCache::new(),
            account_gl_mapping_cache: MainModelCache::new(),
            fee_type_gl_mapping_idx_cache: IdxModelCache::new(),
            interest_rate_tier_idx_cache: IdxModelCache::new(),
            product_idx_cache: IdxModelCache::new(),
        }
    }

    /// An account GL mapping repository starting from the committed caches.
    pub fn build_account_gl_mapping_repo(&self) -> (r: AccountGlMappingRepositoryImpl)
        requires
            self.wf(),
        ensures
            r.wf(),
            r.account_gl_mapping_idx_cache@ == self.account_gl_mapping_idx_view(),
            r.account_gl_mapping_idx_cache.committed_view() == self.account_gl_mapping_idx_view(),
            r.account_gl_mapping_cache@ == self.account_gl_mapping_view(),
            r.account_gl_mapping_cache.committed_view() == self.account_gl_mapping_view(),
    {
        AccountGlMappingRepositoryImpl::new(
            self.account_gl_mapping_idx_cache.duplicate(),
            self.account_gl_mapping_cache.duplicate(),
        )
    }

    /// A fee-type GL mapping repository starting from the committed cache.
    pub fn build_fee_type_gl_mapping_repo(&self) -> (r: FeeTypeGlMappingRepositoryImpl)
        requires
            self.wf(),
        ensures
            r.wf(),
            r.fee_type_gl_mapping_idx_cache@ == self.fee_type_gl_mapping_idx_view(),
            r.fee_type_gl_mapping_idx_cache.committed_view() == self.fee_type_gl_mapping_idx_view(),
    {
        FeeTypeGlMappingRepositoryImpl::new(self.fee_type_gl_mapping_idx_cache.duplicate())
    }

    /// An interest rate tier repository starting from the committed cache.
    pub fn build_interest_rate_tier_repo(&self) -> (r: InterestRateTierRepositoryImpl)
        requires
            self.wf(),
        ensures
            r.wf(),
            r.interest_rate_tier_idx_cache@ == self.interest_rate_tier_idx_view(),
            r.interest_rate_tier_idx_cache.committed_view() == self.interest_rate_tier_idx_view(),
    {
        InterestRateTierRepositoryImpl::new(self.interest_rate_tier_idx_cache.duplicate())
    }

    /// A product repository starting from the committed cache.
    pub fn build_product_repo(&self) -> (r: ProductRepositoryImpl)
        requires
            self.wf(),
        ensures
            r.wf(),
            r.product_idx_cache@ == self.product_idx_view(),
            r.product_idx_cache.committed_view() == self.product_idx_view(),
    {
        ProductRepositoryImpl::new(self.product_idx_cache.duplicate())
    }

    /// All product repositories, starting from the committed caches.
    pub fn build_all_repos(&self) -> (r: ProductRepositories)
        requires
            self.wf(),
        ensures
            r.account_gl_mapping_repository.wf(),
            r.account_gl_mapping_repository.account_gl_mapping_idx_cache@
                == self.account_gl_mapping_idx_view(),
            r.account_gl_mapping_repository.account_gl_mapping_idx_cache.committed_view()
                == self.account_gl_mapping_idx_view(),
            r.account_gl_mapping_repository.account_gl_mapping_cache@
                == self.account_gl_mapping_view(),
            r.account_gl_mapping_repository.account_gl_mapping_cache.committed_view()
                == self.account_gl_mapping_view(),
            r.fee_type_gl_mapping_repository.wf(),
            r.fee_type_gl_mapping_repository.fee_type_gl_mapping_idx_cache@
                == self.fee_type_gl_mapping_idx_view(),
            r.fee_type_gl_mapping_repository.fee_type_gl_mapping_idx_cache.committed_view()
                == self.fee_type_gl_mapping_idx_view(),
            r.interest_rate_tier_repository.wf(),
            r.interest_rate_tier_repository.interest_rate_tier_idx_cache@
                == self.interest_rate_tier_idx_view(),
            r.interest_rate_tier_repository.interest_rate_tier_idx_cache.committed_view()
                == self.interest_rate_tier_idx_view(),
            r.product_repository.wf(),
            r.product_repository.product_idx_cache@ == self.product_idx_view(),
            r.product_repository.product_idx_cache.committed_view() == self.product_idx_view(),
    {
        ProductRepositories {
            account_gl_mapping_repository: self.build_account_gl_mapping_repo(),
            fee_type_gl_mapping_repository: self.build_fee_type_gl_mapping_repo(),
            interest_rate_tier_repository: self.build_interest_rate_tier_repo(),
            product_repository: self.build_product_repo(),
        }
    }

    /// Takes over what the repositories of a unit of work committed.
    pub fn publish(&mut self, repos: &ProductRepositories)
        requires
            old(self).wf(),
            repos.account_gl_mapping_repository.wf(),
            repos.fee_type_gl_mapping_repository.wf(),
            repos.interest_rate_tier_repository.wf(),
            repos.product_repository.wf(),
        ensures
            final(self).wf(),
            final(self).account_gl_mapping_idx_view()
                == repos.account_gl_mapping_repository.account_gl_mapping_idx_cache.committed_view(),
            final(self).account_gl_mapping_view()
                == repos.account_gl_mapping_repository.account_gl_mapping_cache.committed_view(),
            final(self).fee_type_gl_mapping_idx_view()
                == repos.fee_type_gl_mapping_repository.fee_type_gl_mapping_idx_cache.committed_view(),
            final(self).interest_rate_tier_idx_view()
                == repos.interest_rate_tier_repository.interest_rate_tier_idx_cache.committed_view(),
            final(self).product_idx_view()
                == repos.product_repository.product_idx_cache.committed_view(),
    {
        self.account_gl_mapping_idx_cache = repos.account_gl_mapping_repository.account_gl_mapping_idx_cache.committed().duplicate();
        self.account_gl_mapping_cache = repos.account_gl_mapping_repository.account_gl_mapping_cache.committed().duplicate();
        self.fee_type_gl_mapping_idx_cache = repos.fee_type_gl_mapping_repository.fee_type_gl_mapping_idx_cache.committed().duplicate();
        self.interest_rate_tier_idx_cache = repos.interest_rate_tier_repository.interest_rate_tier_idx_cache.committed().duplicate();
        self.product_idx_cache = repos.product_repository.product_idx_cache.committed().duplicate();
    }
}

} // verus!
