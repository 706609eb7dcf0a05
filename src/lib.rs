/// Pair values and number sequences passed by value or by borrowed view.
pub mod marshal;
/// UTF-8 text: counting scalar values and building the theme song.
pub mod text;
/// The table from five-digit keys to population counts.
pub mod zip_db;

pub use marshal::{
    addition, flip_things_around, flip_things_around_rust, sum_of_even, vec_return, Tuple,
};
pub use text::{how_many_characters, theme_song_generate};
pub use zip_db::{
    zip_code_database_new, zip_code_database_populate, zip_code_database_population_of,
    ZipCodeDatabase,
};
