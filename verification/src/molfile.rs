//! The header record and the field types specific to it.

mod chiral_flag;
mod counts;
mod header;
mod molecule_name;
mod parameters;
mod version;

pub use chiral_flag::ChiralFlag;
pub use chiral_flag::ChiralFlagBuilder;
pub use chiral_flag::chiral_flag_finish;
pub use chiral_flag::chiral_flag_step;
pub use counts::Counts;
pub use counts::CountsV;
pub use header::Header;
pub use header::HeaderV;
pub use molecule_name::MoleculeName;
pub use molecule_name::MoleculeNameBuilder;
pub use molecule_name::molecule_name_limit;
pub use parameters::Parameters;
pub use parameters::ParametersV;
pub use version::Version;
pub use version::VersionBuilder;
pub use version::version_finish;
pub use version::version_step;
