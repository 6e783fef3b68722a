pub mod commands;
pub mod mood;
pub mod persistence;
pub mod pet;
pub mod utils;

pub use commands::{
    adopt_pet, clean_pet, feed_pet, get_stat_color, play_pet, potty_pet, reset_pet, train_pet,
    walk_pet, walk_step,
};
pub use mood::{calculate_mood, get_mood_message, Mood};
pub use persistence::{apply_decay, get_pet_file_path, load_pet, save_pet};
pub use pet::Pet;
pub use utils::cap_stat;
