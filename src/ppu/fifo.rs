pub mod background_fetcher;
pub mod fetcher_state_machine;
pub mod sprite_fetcher;
