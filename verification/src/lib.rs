pub mod bit_buffer;
pub mod mm_enums;
pub mod energy_saving_information;
pub mod class_of_ms;
pub mod d_mm_status;
pub mod telemetry;
pub mod client_state;
