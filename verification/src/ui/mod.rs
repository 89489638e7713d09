pub mod actions;
pub mod controller;
pub mod i18n;
pub mod load;
pub mod passkey;
pub mod relay;
pub mod save;
pub mod state;
pub mod status;
pub mod tabs;
pub mod view;
