pub mod brokered_kernel_display;
pub mod caller;
pub mod capability_lease;
pub mod capture_health;
pub mod capture_output_layouts;
pub mod cast_display_slot;
pub mod castkms_actor;
pub mod cec_bridge;
pub mod daemon_options;
pub mod dbus;
pub mod device_control_port;
pub mod device_recovery;
pub mod device_session;
pub mod device_session_port;
pub mod display;
pub mod display_media;
pub mod display_state;
pub mod drm_capture_pipeline;
pub mod gpu_output;
pub mod kernel_display;
pub mod kernel_display_port;
pub mod kernel_display_with_capture;
pub mod kernel_session;
pub mod manager;
pub mod media_driver;
pub mod media_pipeline_port;
pub mod media_policy;
pub mod media_session;
pub mod nonzero;
pub mod order;
pub mod ordered;
pub mod os_error;
pub mod output;
pub mod preparation;
pub mod protocol;
pub mod service;
pub mod text;
