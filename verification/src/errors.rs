//! Fatal error conditions of the protocol and its embedding.

use vstd::prelude::*;

verus! {

/// Everything that can go fatally wrong: address parsing, setting up the
/// process-shared lock and condition variable, operating on them, and a
/// byte-stream connection failing mid-exchange.  Compare-and-swap races are
/// not errors and never surface here.
#[derive(Debug, Clone, Copy, PartialEq, Eq, Structural)]
pub enum Error {
    /// The address spec carries none of the known `proto:` prefixes.
    UnknownProtocol,
    /// A state byte decoded outside the defined tags.
    UnknownState,
    /// The mutex attribute object could not be initialized.
    FailInitPthreadMutexAttr,
    /// The mutex attribute object refused the process-shared flag.
    FailSetupPthreadMutexAttr,
    /// The process-shared mutex could not be initialized.
    FailInitPthreadMutex,
    /// The condition attribute object could not be initialized.
    FailInitPthreadCondAttr,
    /// The condition attribute object refused the process-shared flag.
    FailSetupPthreadCondAttr,
    /// The process-shared condition variable could not be initialized.
    FailInitPthreadCond,
    /// Locking the mutex returned the carried OS status.
    FailPthreadLock(i32),
    /// Unlocking the mutex returned the carried OS status.
    FailPthreadUnlock(i32),
    /// Waiting on the condition variable returned the carried OS status.
    FailPthreadWait(i32),
    /// Signalling the condition variable returned the carried OS status.
    FailPthreadSignal(i32),
    /// A byte-stream connection failed while an exchange still ran.
    ConnectionClosed,
}

impl Error {
    /// A fixed diagnostic line per variant; the carried OS status of the
    /// lock/condition variants is reported by the embedding program.
    pub fn message(&self) -> (m: &'static str)
        ensures
            m == self.message_spec(),
    {
        match self {
            Error::UnknownProtocol => "unknown protocol",
            Error::UnknownState => "unknown state",
            Error::FailInitPthreadMutexAttr => "fail to initialize pthread_mutexattr_t",
            Error::FailSetupPthreadMutexAttr => "fail to setup pthread_mutexattr_t",
            Error::FailInitPthreadMutex => "fail to initialize pthread_mutex_t",
            Error::FailInitPthreadCondAttr => "fail to initialize pthread_condattr_t",
            Error::FailSetupPthreadCondAttr => "fail to setup pthread_condattr_t",
            Error::FailInitPthreadCond => "fail to initialize pthread_cond_t",
            Error::FailPthreadLock(_) => "fail to lock pthread_mutex_t",
            Error::FailPthreadUnlock(_) => "fail to unlock pthread_mutex_t",
            Error::FailPthreadWait(_) => "fail to wait pthread_cond_t",
            Error::FailPthreadSignal(_) => "fail to signal pthread_cond_t",
            Error::ConnectionClosed => "connection closed",
        }
    }

    /// What `message` returns for each variant.
    pub open spec fn message_spec(self) -> &'static str {
        match self {
            Error::UnknownProtocol => "unknown protocol",
            Error::UnknownState => "unknown state",
            Error::FailInitPthreadMutexAttr => "fail to initialize pthread_mutexattr_t",
            Error::FailSetupPthreadMutexAttr => "fail to setup pthread_mutexattr_t",
            Error::FailInitPthreadMutex => "fail to initialize pthread_mutex_t",
            Error::FailInitPthreadCondAttr => "fail to initialize pthread_condattr_t",
            Error::FailSetupPthreadCondAttr => "fail to setup pthread_condattr_t",
            Error::FailInitPthreadCond => "fail to initialize pthread_cond_t",
            Error::FailPthreadLock(_) => "fail to lock pthread_mutex_t",
            Error::FailPthreadUnlock(_) => "fail to unlock pthread_mutex_t",
            Error::FailPthreadWait(_) => "fail to wait pthread_cond_t",
            Error::FailPthreadSignal(_) => "fail to signal pthread_cond_t",
            Error::ConnectionClosed => "connection closed",
        }
    }
}

} // verus!
