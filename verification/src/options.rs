//! Options of a scan.

use vstd::prelude::*;

verus! {

/// How a scan treats a locked transponder.
#[derive(Clone, Copy, Debug, PartialEq, Eq, Structural)]
pub struct ScanOptions {
    /// Read the alternate table ids instead of the primary tables.
    pub alternate_table_ids: bool,
    /// Scales the time that the table reader waits for each table.
    pub timeout_multiplier: u32,
    /// After a lock, ask the driver which parameters it arrived at and hand
    /// those to the table reader in place of the nominal ones.
    pub use_detected_parameters: bool,
    /// After a lock, ask the table reader for the services.
    pub harvest_from_tables: bool,
    /// Scan transponders that the tables report and the list does not hold.
    pub discover_new_transponders: bool,
}

impl ScanOptions {
    /// The options in effect where nothing is chosen.
    pub open spec fn spec_default() -> ScanOptions {
        ScanOptions {
            alternate_table_ids: false,
            timeout_multiplier: 1,
            use_detected_parameters: true,
            harvest_from_tables: true,
            discover_new_transponders: false,
        }
    }

    /// The options with each choice that is `None` replaced by its default.
    pub open spec fn spec_from_choices(
        alternate_table_ids: Option<bool>,
        timeout_multiplier: Option<u32>,
        use_detected_parameters: Option<bool>,
        harvest_from_tables: Option<bool>,
        discover_new_transponders: Option<bool>,
    ) -> ScanOptions {
        ScanOptions {
            alternate_table_ids: match alternate_table_ids {
                Some(chosen) => chosen,
                None => false,
            },
            timeout_multiplier: match timeout_multiplier {
                Some(chosen) => chosen,
                None => 1,
            },
            use_detected_parameters: match use_detected_parameters {
                Some(chosen) => chosen,
                None => true,
            },
            harvest_from_tables: match harvest_from_tables {
                Some(chosen) => chosen,
                None => true,
            },
            discover_new_transponders: match discover_new_transponders {
                Some(chosen) => chosen,
                None => false,
            },
        }
    }

    /// The options with each choice that is `None` replaced by its default.
    #[verifier::when_used_as_spec(spec_from_choices)]
    pub fn from_choices(
        alternate_table_ids: Option<bool>,
        timeout_multiplier: Option<u32>,
        use_detected_parameters: Option<bool>,
        harvest_from_tables: Option<bool>,
        discover_new_transponders: Option<bool>,
    ) -> (options: ScanOptions)
        ensures
            options == Self::spec_from_choices(
                alternate_table_ids,
                timeout_multiplier,
                use_detected_parameters,
                harvest_from_tables,
                discover_new_transponders,
            ),
    {
        ScanOptions {
            alternate_table_ids: alternate_table_ids.unwrap_or(false),
            timeout_multiplier: timeout_multiplier.unwrap_or(1),
            use_detected_parameters: use_detected_parameters.unwrap_or(true),
            harvest_from_tables: harvest_from_tables.unwrap_or(true),
            discover_new_transponders: discover_new_transponders.unwrap_or(false),
        }
    }
}

impl Default for ScanOptions {
    fn default() -> (options: ScanOptions)
        ensures
            options == ScanOptions::spec_default(),
    {
        ScanOptions {
            alternate_table_ids: false,
            timeout_multiplier: 1,
            use_detected_parameters: true,
            harvest_from_tables: true,
            discover_new_transponders: false,
        }
    }
}

} // verus!
