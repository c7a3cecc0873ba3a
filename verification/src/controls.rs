pub mod button;
pub mod textbox;
pub mod visual_state;
pub mod window;
