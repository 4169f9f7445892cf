//! What a caller asks of a run, as it comes from the command line.

use vstd::prelude::*;

use crate::request_service::ConfView;
use crate::request_service::RequestServiceConf;

verus! {

/// The options of one invocation.
#[derive(Clone, Debug)]
pub struct DiffConf {
    pub old_url: String,
    pub new_url: String,
    pub concurrent_num: i32,
    pub timeout_ms: u64,
    pub queue_size: usize,
    pub request_method: String,
    pub replay_log_path: String,
}

/// The service configuration that the options `conf` ask for.
pub open spec fn service_conf_of(conf: DiffConf) -> ConfView {
    ConfView {
        old_url: conf.old_url@,
        new_url: conf.new_url@,
        concurrent_num: conf.concurrent_num as int,
        timeout_ms: conf.timeout_ms,
        queue_size: conf.queue_size as nat,
        request_method: conf.request_method@,
    }
}

/// Overwrites every setting of `service_conf` with the one that `conf` gives.
/// The path of the log is no setting of the service and is left behind.
pub fn set_service_conf_val(service_conf: &mut RequestServiceConf, conf: DiffConf)
    ensures
        final(service_conf)@ == service_conf_of(conf),
{
    service_conf.old_url = conf.old_url;
    service_conf.new_url = conf.new_url;
    service_conf.request_method = conf.request_method;
    service_conf.concurrent_num = conf.concurrent_num;
    service_conf.timeout_ms = conf.timeout_ms;
    service_conf.queue_size = conf.queue_size;
}

} // verus!
