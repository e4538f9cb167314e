pub mod netfile;
pub mod netsignonstate;
pub mod nettick;
pub mod svcclassinfo;
pub mod svccreatestringtable;
pub mod svcgameeventlist;
pub mod svcserverinfo;
pub mod svcvoiceinit;

pub use netfile::SNetFile;
pub use netsignonstate::{SNetSignOnState, SignOnState};
pub use nettick::SNetTick;
pub use svcclassinfo::{SSvcClassInfo, ServerClass};
pub use svccreatestringtable::{SSvcCreateStringTable, StringTableFlags};
pub use svcgameeventlist::{EventDescriptorType, GameEventDescription, SSvcGameEventList};
pub use svcserverinfo::SSvcServerInfo;
pub use svcvoiceinit::SSvcVoiceInit;
