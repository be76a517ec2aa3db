//! Binding of capability contracts: each contract that a build needs is bound
//! to the one implementation that the build provides for it.

use vstd::prelude::*;

verus! {

/// The capability contracts.
#[derive(Clone, Copy, Debug, PartialEq, Eq, Structural)]
pub enum Contract {
    Init,
    Console,
    Irq,
    Mem,
    Power,
    Time,
}

/// An implementation that a platform provides for one contract.
#[derive(Clone, Copy, Debug, PartialEq, Eq, Structural)]
pub struct Implementation {
    pub contract: Contract,
    pub provider: u32,
}

/// Why a build is refused.
#[derive(Clone, Copy, Debug, PartialEq, Eq, Structural)]
pub enum BuildConfigurationError {
    /// No implementation of a contract.
    Missing,
    /// More than one implementation of a contract.
    Duplicate,
    /// The platform is not the one that the configuration names.
    IdentityMismatch,
}

/// Number of implementations of `contract` among `provided`.
pub open spec fn tally(provided: Seq<Implementation>, contract: Contract) -> nat
    decreases provided.len(),
{
    if provided.len() == 0 {
        0
    } else {
        tally(provided.drop_last(), contract) + if provided.last().contract == contract {
            1nat
        } else {
            0nat
        }
    }
}

/// The provider of the last implementation of `contract` among `provided`.
pub open spec fn last_provider(provided: Seq<Implementation>, contract: Contract) -> u32
    decreases provided.len(),
{
    if provided.len() == 0 {
        0
    } else if provided.last().contract == contract {
        provided.last().provider
    } else {
        last_provider(provided.drop_last(), contract)
    }
}

/// What binding `contract` comes to: its one implementation, or the refusal
/// of a build that provides none or several.
pub open spec fn binding(provided: Seq<Implementation>, contract: Contract) -> Result<
    u32,
    BuildConfigurationError,
> {
    if tally(provided, contract) == 0 {
        Err(BuildConfigurationError::Missing)
    } else if tally(provided, contract) == 1 {
        Ok(last_provider(provided, contract))
    } else {
        Err(BuildConfigurationError::Duplicate)
    }
}

/// Binds `contract` to its implementation: the build must provide exactly one.
pub fn bind(provided: &Vec<Implementation>, contract: Contract) -> (r: Result<
    u32,
    BuildConfigurationError,
>)
    ensures
        r == binding(provided@, contract),
{
    let mut found: Option<u32> = None;
    let mut many: bool = false;
    let mut i: usize = 0;
    while i < provided.len()
        invariant
            i <= provided.len(),
            found is None <==> tally(provided@.take(i as int), contract) == 0,
            many <==> tally(provided@.take(i as int), contract) >= 2,
            found is Some ==> found->Some_0 == last_provider(provided@.take(i as int), contract),
        decreases provided.len() - i,
    {
        proof {
            assert(provided@.take(i + 1).drop_last() =~= provided@.take(i as int));
        }
        if provided[i].contract == contract {
            if found.is_some() {
                many = true;
            }
            found = Some(provided[i].provider);
        }
        i += 1;
    }
    proof {
        assert(provided@.take(i as int) =~= provided@);
    }
    match found {
        None => Err(BuildConfigurationError::Missing),
        Some(p) => if many {
            Err(BuildConfigurationError::Duplicate)
        } else {
            Ok(p)
        },
    }
}

/// The implementation bound to each contract of a build. The interrupt
/// contract is bound only in a build with interrupts.
#[derive(Clone, Copy, Debug, PartialEq, Eq, Structural)]
pub struct Bindings {
    pub init: u32,
    pub console: u32,
    pub mem: u32,
    pub power: u32,
    pub time: u32,
    pub irq: Option<u32>,
}

/// What resolving a build comes to: every contract bound to its one
/// implementation, or the refusal of the first contract, in the order init,
/// console, mem, power, time, irq, that has none or several.
pub open spec fn resolution(provided: Seq<Implementation>, irq: bool) -> Result<
    Bindings,
    BuildConfigurationError,
> {
    match binding(provided, Contract::Init) {
        Err(e) => Err(e),
        Ok(init) => match binding(provided, Contract::Console) {
            Err(e) => Err(e),
            Ok(console) => match binding(provided, Contract::Mem) {
                Err(e) => Err(e),
                Ok(mem) => match binding(provided, Contract::Power) {
                    Err(e) => Err(e),
                    Ok(power) => match binding(provided, Contract::Time) {
                        Err(e) => Err(e),
                        Ok(time) => if irq {
                            match binding(provided, Contract::Irq) {
                                Err(e) => Err(e),
                                Ok(i) => Ok(
                                    Bindings { init, console, mem, power, time, irq: Some(i) },
                                ),
                            }
                        } else {
                            Ok(Bindings { init, console, mem, power, time, irq: None })
                        },
                    },
                },
            },
        },
    }
}

/// Resolves a build: binds every contract that the build needs.
pub fn resolve(provided: &Vec<Implementation>, irq: bool) -> (r: Result<
    Bindings,
    BuildConfigurationError,
>)
    ensures
        r == resolution(provided@, irq),
{
    let init = match bind(provided, Contract::Init) {
        Ok(p) => p,
        Err(e) => {
            return Err(e);
        },
    };
    let console = match bind(provided, Contract::Console) {
        Ok(p) => p,
        Err(e) => {
            return Err(e);
        },
    };
    let mem = match bind(provided, Contract::Mem) {
        Ok(p) => p,
        Err(e) => {
            return Err(e);
        },
    };
    let power = match bind(provided, Contract::Power) {
        Ok(p) => p,
        Err(e) => {
            return Err(e);
        },
    };
    let time = match bind(provided, Contract::Time) {
        Ok(p) => p,
        Err(e) => {
            return Err(e);
        },
    };
    if irq {
        match bind(provided, Contract::Irq) {
            Ok(i) => Ok(Bindings { init, console, mem, power, time, irq: Some(i) }),
            Err(e) => Err(e),
        }
    } else {
        Ok(Bindings { init, console, mem, power, time, irq: None })
    }
}

/// Checks that the platform package is the one that the configuration names.
pub fn check_identity(package: &Vec<u8>, configured: &Vec<u8>) -> (r: Result<
    (),
    BuildConfigurationError,
>)
    ensures
        r == if package@ == configured@ {
            Ok::<(), BuildConfigurationError>(())
        } else {
            Err::<(), BuildConfigurationError>(BuildConfigurationError::IdentityMismatch)
        },
{
    if package.len() != configured.len() {
        return Err(BuildConfigurationError::IdentityMismatch);
    }
    let mut i: usize = 0;
    while i < package.len()
        invariant
            i <= package.len(),
            package@.len() == configured@.len(),
            forall|k: int| 0 <= k < i ==> package@[k] == configured@[k],
        decreases package.len() - i,
    {
        if package[i] != configured[i] {
            return Err(BuildConfigurationError::IdentityMismatch);
        }
        i += 1;
    }
    assert(package@ =~= configured@);
    Ok(())
}

/// A build that provides nothing binds no contract. Adding an implementation
/// of a contract that had none binds the contract to it; adding one to a
/// contract that had any makes the build a duplicate. Implementations of other
/// contracts change nothing.
pub proof fn law_exactly_one(provided: Seq<Implementation>, extra: Implementation, other: Contract)
    requires
        other != extra.contract,
    ensures
        binding(Seq::<Implementation>::empty(), other) == Err::<u32, BuildConfigurationError>(
            BuildConfigurationError::Missing,
        ),
        binding(provided, extra.contract) == Err::<u32, BuildConfigurationError>(
            BuildConfigurationError::Missing,
        ) ==> binding(provided.push(extra), extra.contract) == Ok::<u32, BuildConfigurationError>(
            extra.provider,
        ),
        binding(provided, extra.contract) != Err::<u32, BuildConfigurationError>(
            BuildConfigurationError::Missing,
        ) ==> binding(provided.push(extra), extra.contract) == Err::<u32, BuildConfigurationError>(
            BuildConfigurationError::Duplicate,
        ),
        binding(provided.push(extra), other) == binding(provided, other),
{
    assert(provided.push(extra).drop_last() =~= provided);
}

} // verus!
