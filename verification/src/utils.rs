//! Reading the cluster root certificate out of its well-known ConfigMap.
//!
//! Absence of the ConfigMap, of its data, or of the configured key is a
//! distinct, reported error — never silently defaulted.

use vstd::prelude::*;

verus! {

use vstd::string::StringExecFns;

use crate::error::KuoError;
use crate::managed_user::spec_lookup;

/// Extract the root certificate from a fetched ConfigMap: `fetched` is
/// `None` when no ConfigMap of the configured name exists, `Some(None)`
/// when it exists without data, and `Some(Some(entries))` otherwise.
pub fn get_kube_cert(
    fetched: Option<Option<Vec<(String, String)>>>,
    cm_name: &str,
    key: &str,
) -> (r: Result<String, KuoError>)
    ensures
        match fetched {
            None => r matches Err(e) && e matches KuoError::CannotGetRootCert(m) && m@ == "The ConfigMap "@
                + cm_name@ + " doesn't exist."@,
            Some(None) => r matches Err(e) && e matches KuoError::CannotGetRootCert(m) && m@
                == "The ConfigMap "@ + cm_name@ + " has no data."@,
            Some(Some(entries)) => match spec_lookup(entries@, key@) {
                Some(v) => r matches Ok(cert) && cert@ == v,
                None => r matches Err(e) && e matches KuoError::CannotGetRootCert(m) && m@
                    == "The key "@ + key@ + " doesn't exit in the ConfigMap."@,
            },
        },
{
    let Some(cm) = fetched else {
        let mut m = String::new();
        m.append("The ConfigMap ");
        m.append(cm_name);
        m.append(" doesn't exist.");
        return Err(KuoError::CannotGetRootCert(m));
    };
    let Some(entries) = cm else {
        let mut m = String::new();
        m.append("The ConfigMap ");
        m.append(cm_name);
        m.append(" has no data.");
        return Err(KuoError::CannotGetRootCert(m));
    };
    match crate::managed_user::lookup_entry(&entries, key) {
        Some(cert) => Ok(cert),
        None => {
            let mut m = String::new();
            m.append("The key ");
            m.append(key);
            m.append(" doesn't exit in the ConfigMap.");
            Err(KuoError::CannotGetRootCert(m))
        },
    }
}

} // verus!
