use mhf::config::MhfVersion;
use mhf::naming::{
    alt_endpoint, ini_file_name, module_file_name, mutex_master_name, mutex_master_ready_name,
    normalized_folder, remote_addr,
};

#[test]
fn module_filename_selection() {
    // the graphics selector picks the HD build exactly when it is 1
    assert_eq!(module_file_name(MhfVersion::ZZ, 1), "mhfo-hd.dll");
    assert_eq!(module_file_name(MhfVersion::ZZ, 2), "mhfo.dll");
    assert_eq!(module_file_name(MhfVersion::ZZ, 0), "mhfo.dll");
    assert_eq!(module_file_name(MhfVersion::F5, 0), "mhfo.dll");
}

#[test]
fn fixed_names() {
    assert_eq!(mutex_master_name(), b"MHF_MASTER".to_vec());
    assert_eq!(mutex_master_ready_name(), b"MHF_MASTER_READY".to_vec());
    assert_eq!(ini_file_name(), b"mhf.ini".to_vec());
}

#[test]
fn folder_normalization() {
    assert_eq!(normalized_folder(&b"C:\\mhf".to_vec()), b"C:\\mhf/".to_vec());
    assert_eq!(normalized_folder(&b"C:\\mhf\\".to_vec()), b"C:\\mhf\\".to_vec());
    assert_eq!(normalized_folder(&b"game/".to_vec()), b"game/".to_vec());
    assert_eq!(normalized_folder(&b"".to_vec()), b"/".to_vec());
}

#[test]
fn endpoint_strings() {
    assert_eq!(remote_addr(&b"host".to_vec(), 0), b"host:0".to_vec());
    assert_eq!(remote_addr(&b"host".to_vec(), 65535), b"host:65535".to_vec());
    assert_eq!(remote_addr(&b"10.1.2.3".to_vec(), 8080), b"10.1.2.3:8080".to_vec());
    assert_eq!(alt_endpoint(&b"10.1.2.3".to_vec()), b"10.1.2.3:8080".to_vec());
}
