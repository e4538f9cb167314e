pub mod consolecmd;
pub mod packet;
pub mod stringtables;
pub mod usercmd;

pub use packet::{CmdInfo, NetSvcMessage, SPacket};
pub use stringtables::{SDataTables, SStringTables};
pub use usercmd::SUserCmd;
