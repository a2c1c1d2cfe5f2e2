mod config;
mod dispatch;
mod env_store;
mod menu;
mod window;

pub use dispatch::DevtoolsAction;
pub use dispatch::MenuEventAction;
pub use dispatch::devtools_toggle_action;
pub use dispatch::devtools_toggle_spec;
pub use dispatch::dispatch_menu_event;
pub use dispatch::dispatch_spec;
pub use menu::MenuEntry;
pub use menu::MenuModel;
pub use menu::SubmenuModel;
pub use menu::app_submenu_wf;
pub use menu::build_app_submenu;
pub use menu::build_main_menu;
pub use menu::build_window_submenu;
pub use menu::is_custom_entry;
pub use menu::main_menu_wf;
pub use menu::menu_id_check_updates;
pub use menu::menu_id_open_info;
pub use menu::menu_id_toggle_devtools;
pub use menu::window_submenu_wf;

pub use window::WindowAction;
pub use window::WindowConfig;
pub use window::WindowRegistry;
pub use window::count_of;
pub use window::unique_ids;
pub use window::info_window_config;
pub use window::info_window_id;
pub use window::lemma_open_twice_single_instance;
pub use window::open_decision;
pub use window::open_info_spec;

pub use config::ConfigView;
pub use config::Hc3Config;
pub use config::config_of_env;
pub use config::env_value;
pub use config::get_hc3_config;
pub use config::host_var;
pub use config::lemma_config_all_absent;
pub use config::lemma_config_host_only;
pub use config::password_var;
pub use config::protocol_var;
pub use config::user_var;

pub use env_store::EnvFileError;
pub use env_store::EnvStore;
pub use env_store::LoadOutcome;
pub use env_store::home_var_name;
pub use env_store::home_var_name_spec;
pub use env_store::apply_entry;
pub use env_store::env_after_load;
pub use env_store::lemma_home_file_does_not_override;
pub use env_store::lemma_load_preserves_existing;
pub use env_store::strip_bom_spec;
