//! Fixed names and derived strings: the cross-process mutex names, the ini
//! filename, the foreign module filename, the normalized working folder and
//! the remote endpoint strings.

use vstd::prelude::*;
use crate::bytes::dec_seq;
use crate::bytes::push_dec;
use crate::config::MhfVersion;

verus! {

/// ASCII bytes of `"MHF_MASTER"`: the base identifier with the master
/// suffix.
pub open spec fn mutex_master_name_bytes() -> Seq<u8> {
    seq![77u8, 72u8, 70u8, 95u8, 77u8, 65u8, 83u8, 84u8, 69u8, 82u8]
}

/// ASCII bytes of `"MHF_MASTER_READY"`: the base identifier with the ready
/// suffix.
pub open spec fn mutex_master_ready_name_bytes() -> Seq<u8> {
    seq![
        77u8,
        72u8,
        70u8,
        95u8,
        77u8,
        65u8,
        83u8,
        84u8,
        69u8,
        82u8,
        95u8,
        82u8,
        69u8,
        65u8,
        68u8,
        89u8,
    ]
}

/// ASCII bytes of `"mhf.ini"`, the fixed configuration filename.
pub open spec fn ini_file_name_bytes() -> Seq<u8> {
    seq![109u8, 104u8, 102u8, 46u8, 105u8, 110u8, 105u8]
}

/// Copies a byte slice into an owned buffer.
pub fn copy_bytes(src: &[u8]) -> (r: Vec<u8>)
    ensures
        r@ == src@,
{
    let mut out: Vec<u8> = Vec::new();
    let n = src.len();
    let mut i: usize = 0;
    while i < n
        invariant
            i <= n,
            n == src@.len(),
            out@ =~= src@.take(i as int),
        decreases n - i,
    {
        out.push(src[i]);
        proof {
            assert(out@ =~= src@.take(i as int + 1));
        }
        i = i + 1;
    }
    proof {
        assert(out@ =~= src@);
    }
    out
}

/// The name of the cross-process master mutex, `"MHF_MASTER"`.
pub fn mutex_master_name() -> (r: Vec<u8>)
    ensures
        r@ == mutex_master_name_bytes(),
{
    let mut v: Vec<u8> = Vec::new();
    v.push(77);
    v.push(72);
    v.push(70);
    v.push(95);
    v.push(77);
    v.push(65);
    v.push(83);
    v.push(84);
    v.push(69);
    v.push(82);
    proof {
        assert(v@ =~= mutex_master_name_bytes());
    }
    v
}

/// The name of the cross-process ready mutex, `"MHF_MASTER_READY"`.
pub fn mutex_master_ready_name() -> (r: Vec<u8>)
    ensures
        r@ == mutex_master_ready_name_bytes(),
{
    let mut v = mutex_master_name();
    v.push(95);
    v.push(82);
    v.push(69);
    v.push(65);
    v.push(68);
    v.push(89);
    proof {
        assert(v@ =~= mutex_master_ready_name_bytes());
    }
    v
}

/// The fixed ini filename stored in the image, `"mhf.ini"`.
pub fn ini_file_name() -> (r: Vec<u8>)
    ensures
        r@ == ini_file_name_bytes(),
{
    let mut v: Vec<u8> = Vec::new();
    v.push(109);
    v.push(104);
    v.push(102);
    v.push(46);
    v.push(105);
    v.push(110);
    v.push(105);
    proof {
        assert(v@ =~= ini_file_name_bytes());
    }
    v
}

/// A folder name with a trailing separator: unchanged when it already ends
/// in `/` or `\`, otherwise with `/` appended.
pub open spec fn normalized_folder_bytes(f: Seq<u8>) -> Seq<u8> {
    if f.len() > 0 && (f[f.len() - 1] == 47u8 || f[f.len() - 1] == 92u8) {
        f
    } else {
        f.push(47u8)
    }
}

/// Appends a trailing path separator to the folder name when it lacks one.
pub fn normalized_folder(folder: &Vec<u8>) -> (r: Vec<u8>)
    ensures
        r@ == normalized_folder_bytes(folder@),
{
    let mut out = copy_bytes(folder.as_slice());
    let n = out.len();
    if n == 0 {
        out.push(47);
    } else {
        let last = out[n - 1];
        if !(last == 47 || last == 92) {
            out.push(47);
        }
    }
    out
}

/// `host:port` with the port in decimal: the remote address field.
pub open spec fn remote_addr_bytes(host: Seq<u8>, port: u16) -> Seq<u8> {
    host + seq![58u8] + dec_seq(port as nat)
}

/// Builds the `host:port` endpoint string.
pub fn remote_addr(host: &Vec<u8>, port: u16) -> (r: Vec<u8>)
    ensures
        r@ == remote_addr_bytes(host@, port),
{
    let mut out = copy_bytes(host.as_slice());
    out.push(58);
    push_dec(&mut out, port as u32);
    proof {
        assert(out@ =~= remote_addr_bytes(host@, port));
    }
    out
}

/// `host:8080`: the alternate endpoint kept by the `ZZ` variant.
pub open spec fn alt_endpoint_bytes(host: Seq<u8>) -> Seq<u8> {
    host + seq![58u8, 56u8, 48u8, 56u8, 48u8]
}

/// Builds the `host:8080` alternate endpoint string.
pub fn alt_endpoint(host: &Vec<u8>) -> (r: Vec<u8>)
    ensures
        r@ == alt_endpoint_bytes(host@),
{
    let mut out = copy_bytes(host.as_slice());
    out.push(58);
    out.push(56);
    out.push(48);
    out.push(56);
    out.push(48);
    proof {
        assert(out@ =~= alt_endpoint_bytes(host@));
    }
    out
}

/// The foreign module filename: the `F5` variant has one fixed name, the
/// `ZZ` variant selects the HD build exactly when the graphics version
/// is 1.
pub fn module_file_name(version: MhfVersion, graphics_ver: u32) -> (r: &'static str)
    ensures
        version == MhfVersion::F5 ==> r@ == "mhfo.dll"@,
        version == MhfVersion::ZZ && graphics_ver == 1 ==> r@ == "mhfo-hd.dll"@,
        version == MhfVersion::ZZ && graphics_ver != 1 ==> r@ == "mhfo.dll"@,
{
    match version {
        MhfVersion::F5 => "mhfo.dll",
        MhfVersion::ZZ => {
            if graphics_ver == 1 {
                "mhfo-hd.dll"
            } else {
                "mhfo.dll"
            }
        },
    }
}

} // verus!
