pub mod c_string;
pub mod counter_queue;
pub mod error;
pub mod gnss;
pub mod gpsd;
pub mod helpers;
pub mod jitqueue;
pub mod loragw_2g4;
pub mod outside;
pub mod regulation;
pub mod reset;
pub mod stats;
pub mod status;
pub mod sx1301;
pub mod sx1302;
pub mod text;
pub mod time;
