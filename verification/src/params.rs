//! Identities and tuning parameters.

use vstd::prelude::*;

verus! {

/// Identifies one tuner by adapter and frontend index.
#[derive(Clone, Copy, Debug, PartialEq, Eq, Structural)]
pub struct FrontendId {
    pub adapter_number: u8,
    pub frontend_number: u8,
}

/// Polarization of a satellite transponder.
#[derive(Clone, Copy, Debug, PartialEq, Eq, Structural)]
pub enum Polarization {
    Horizontal,
    Vertical,
    CircularLeft,
    CircularRight,
}

/// The family of a delivery system.
#[derive(Clone, Copy, Debug, PartialEq, Eq, Structural)]
pub enum DeliverySystem {
    Terrestrial,
    Satellite,
    Cable,
}

/// What a delivery system needs to tune, beside the frequency.
#[derive(Clone, Copy, Debug, PartialEq, Eq, Structural)]
pub enum Tuning {
    Terrestrial { bandwidth_hz: u32 },
    Satellite { symbol_rate: u32, polarization: Polarization },
    Cable { symbol_rate: u32 },
}

impl Tuning {
    /// The delivery system that the fields are for.
    pub open spec fn spec_system(&self) -> DeliverySystem {
        match *self {
            Tuning::Terrestrial { .. } => DeliverySystem::Terrestrial,
            Tuning::Satellite { .. } => DeliverySystem::Satellite,
            Tuning::Cable { .. } => DeliverySystem::Cable,
        }
    }

    /// The delivery system that the fields are for.
    #[verifier::when_used_as_spec(spec_system)]
    pub fn system(&self) -> (system: DeliverySystem)
        ensures
            system == self.spec_system(),
    {
        match self {
            Tuning::Terrestrial { .. } => DeliverySystem::Terrestrial,
            Tuning::Satellite { .. } => DeliverySystem::Satellite,
            Tuning::Cable { .. } => DeliverySystem::Cable,
        }
    }
}

/// Tuning parameters of one transponder: a frequency in Hz, which is never
/// zero, and the fields of its delivery system.
#[derive(Clone, Copy, Debug, PartialEq, Eq, Structural)]
pub struct DeliverySystemParameters {
    frequency: u32,
    tuning: Tuning,
}

impl DeliverySystemParameters {
    #[verifier::type_invariant]
    spec fn frequency_is_positive(self) -> bool {
        self.frequency > 0
    }

    /// The carrier frequency in Hz.
    pub closed spec fn spec_frequency(&self) -> u32 {
        self.frequency
    }

    /// The fields of the delivery system.
    pub closed spec fn spec_tuning(&self) -> Tuning {
        self.tuning
    }

    /// Parameters for `frequency` Hz; none for a frequency of zero.
    pub fn new(frequency: u32, tuning: Tuning) -> (made: Option<DeliverySystemParameters>)
        ensures
            match made {
                Some(parameters) => frequency > 0 && parameters.spec_frequency() == frequency
                    && parameters.spec_tuning() == tuning,
                None => frequency == 0,
            },
    {
        if frequency == 0 {
            None
        } else {
            Some(DeliverySystemParameters { frequency, tuning })
        }
    }

    /// Parameters of a terrestrial transponder; none for a frequency of zero.
    pub fn terrestrial(frequency: u32, bandwidth_hz: u32) -> (made: Option<
        DeliverySystemParameters,
    >)
        ensures
            match made {
                Some(parameters) => frequency > 0 && parameters.spec_frequency() == frequency
                    && parameters.spec_tuning() == (Tuning::Terrestrial { bandwidth_hz }),
                None => frequency == 0,
            },
    {
        Self::new(frequency, Tuning::Terrestrial { bandwidth_hz })
    }

    /// Parameters of a satellite transponder; none for a frequency of zero.
    pub fn satellite(frequency: u32, symbol_rate: u32, polarization: Polarization) -> (made: Option<
        DeliverySystemParameters,
    >)
        ensures
            match made {
                Some(parameters) => frequency > 0 && parameters.spec_frequency() == frequency
                    && parameters.spec_tuning() == (Tuning::Satellite {
                    symbol_rate,
                    polarization,
                }),
                None => frequency == 0,
            },
    {
        Self::new(frequency, Tuning::Satellite { symbol_rate, polarization })
    }

    /// Parameters of a cable transponder; none for a frequency of zero.
    pub fn cable(frequency: u32, symbol_rate: u32) -> (made: Option<DeliverySystemParameters>)
        ensures
            match made {
                Some(parameters) => frequency > 0 && parameters.spec_frequency() == frequency
                    && parameters.spec_tuning() == (Tuning::Cable { symbol_rate }),
                None => frequency == 0,
            },
    {
        Self::new(frequency, Tuning::Cable { symbol_rate })
    }

    /// The carrier frequency in Hz. It is positive.
    pub fn frequency(&self) -> (hz: u32)
        ensures
            hz == self.spec_frequency(),
            hz > 0,
    {
        proof {
            use_type_invariant(self);
        }
        self.frequency
    }

    /// The fields of the delivery system.
    pub fn tuning(&self) -> (tuning: Tuning)
        ensures
            tuning == self.spec_tuning(),
    {
        self.tuning
    }

    /// The delivery system that the parameters are for.
    pub fn system(&self) -> (system: DeliverySystem)
        ensures
            system == self.spec_tuning().spec_system(),
    {
        self.tuning.system()
    }
}

/// Parameters with the same frequency and the same fields are the same
/// parameters.
pub proof fn lemma_parameters_are_their_fields(
    first: DeliverySystemParameters,
    second: DeliverySystemParameters,
)
    requires
        first.spec_frequency() == second.spec_frequency(),
        first.spec_tuning() == second.spec_tuning(),
    ensures
        first == second,
{
}

} // verus!
