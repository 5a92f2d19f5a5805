//! What holds of the paths of a store, over the calls that give them.
use vstd::prelude::*;
#[allow(unused_imports)]
use vstd::utf8::{encode_utf8, is_ascii_chars, is_ascii_chars_encode_utf8};

#[allow(unused_imports)]
use crate::error::HostError;
use crate::pairing::PairingStore;
#[allow(unused_imports)]
use crate::pairing::{devices_path, devices_temp_path, identity_path};
#[allow(unused_imports)]
use crate::path::{copy_bytes, join, join_spec};

verus! {

/// `path` is that of the entry `name` in `dir`: it begins with `dir` and ends in `name`,
/// and between the two stands one `/`, unless `dir` is empty or ends in one.
pub open spec fn is_entry(path: Seq<u8>, dir: Seq<u8>, name: Seq<u8>) -> bool {
    let gap = path.len() - dir.len() - name.len();
    &&& gap == if dir.len() > 0 && dir.last() != 0x2f {
        1int
    } else {
        0int
    }
    &&& path.take(dir.len() as int) == dir
    &&& path.skip(path.len() - name.len()) == name
    &&& gap == 1 ==> path[dir.len() as int] == 0x2f
}

/// There is only one path of an entry.
pub proof fn entry_is_unique(one: Seq<u8>, other: Seq<u8>, dir: Seq<u8>, name: Seq<u8>)
    requires
        is_entry(one, dir, name),
        is_entry(other, dir, name),
    ensures
        one == other,
{
    let start = one.len() - name.len();
    assert forall|i: int| 0 <= i < one.len() implies one[i] == other[i] by {
        if i < dir.len() {
            assert(one.take(dir.len() as int)[i] == other.take(dir.len() as int)[i]);
        } else if i >= start {
            assert(one.skip(start)[i - start] == other.skip(start)[i - start]);
        }
    }
    assert(one =~= other);
}

/// A relative path is the path of an entry; an absolute one stands for itself.
pub proof fn join_gives_the_entry(base: Seq<u8>, part: Seq<u8>)
    ensures
        part.len() == 0 || part[0] != 0x2f ==> is_entry(join_spec(base, part), base, part),
        part.len() > 0 && part[0] == 0x2f ==> join_spec(base, part) == part,
{
    let path = join_spec(base, part);
    if part.len() == 0 || part[0] != 0x2f {
        assert(path.take(base.len() as int) =~= base);
        assert(path.skip(path.len() - part.len()) =~= part);
    }
}

/// The same of a call.
pub proof fn joined_path_is_the_entry(base: Vec<u8>, part: &[u8], path: Vec<u8>)
    requires
        call_ensures(join, (&base, part), path),
    ensures
        part@.len() == 0 || part@[0] != 0x2f ==> is_entry(path@, base@, part@),
        part@.len() > 0 && part@[0] == 0x2f ==> path@ == part@,
{
    join_gives_the_entry(base@, part@);
}

/// A copy has the same bytes.
pub proof fn copy_is_whole(bytes: &[u8], copy: Vec<u8>)
    requires
        call_ensures(copy_bytes, (bytes,), copy),
    ensures
        copy@ == bytes@,
{
}

proof fn names_are_relative()
    ensures
        encode_utf8("identity.pkcs8"@).len() > 0 && encode_utf8("identity.pkcs8"@)[0] != 0x2f,
        encode_utf8("devices.toml"@).len() > 0 && encode_utf8("devices.toml"@)[0] != 0x2f,
        encode_utf8("devices.toml.tmp"@).len() > 0 && encode_utf8("devices.toml.tmp"@)[0] != 0x2f,
        encode_utf8(".config"@).len() > 0 && encode_utf8(".config"@)[0] != 0x2f,
        encode_utf8("mde"@).len() > 0 && encode_utf8("mde"@)[0] != 0x2f,
        encode_utf8("connect"@).len() > 0 && encode_utf8("connect"@)[0] != 0x2f,
{
    reveal_strlit("identity.pkcs8");
    reveal_strlit("devices.toml");
    reveal_strlit("devices.toml.tmp");
    reveal_strlit(".config");
    reveal_strlit("mde");
    reveal_strlit("connect");
    is_ascii_chars_encode_utf8("identity.pkcs8"@);
    is_ascii_chars_encode_utf8("devices.toml"@);
    is_ascii_chars_encode_utf8("devices.toml.tmp"@);
    is_ascii_chars_encode_utf8(".config"@);
    is_ascii_chars_encode_utf8("mde"@);
    is_ascii_chars_encode_utf8("connect"@);
    assert("identity.pkcs8"@[0] as u8 == encode_utf8("identity.pkcs8"@)[0]);
    assert("devices.toml"@[0] as u8 == encode_utf8("devices.toml"@)[0]);
    assert("devices.toml.tmp"@[0] as u8 == encode_utf8("devices.toml.tmp"@)[0]);
    assert(".config"@[0] as u8 == encode_utf8(".config"@)[0]);
    assert("mde"@[0] as u8 == encode_utf8("mde"@)[0]);
    assert("connect"@[0] as u8 == encode_utf8("connect"@)[0]);
}

/// The files of a store are entries of its directory, under their own names.
pub proof fn store_files_are_entries(dir: Seq<u8>)
    ensures
        is_entry(identity_path(dir), dir, encode_utf8("identity.pkcs8"@)),
        is_entry(devices_path(dir), dir, encode_utf8("devices.toml"@)),
        is_entry(devices_temp_path(dir), dir, encode_utf8("devices.toml.tmp"@)),
{
    names_are_relative();
    join_gives_the_entry(dir, encode_utf8("identity.pkcs8"@));
    join_gives_the_entry(dir, encode_utf8("devices.toml"@));
    join_gives_the_entry(dir, encode_utf8("devices.toml.tmp"@));
}

/// `dir` is the entry `connect` of the entry `mde` of `base`.
pub open spec fn is_store_dir_in(dir: Seq<u8>, base: Seq<u8>) -> bool {
    exists|mde: Seq<u8>| #[trigger]
        is_entry(mde, base, encode_utf8("mde"@)) && is_entry(dir, mde, encode_utf8("connect"@))
}

/// Where `XDG_CONFIG_HOME` is set, the store is `mde/connect` in the directory that it
/// names, whatever `HOME` is.
pub proof fn config_home_holds_the_store(
    base: Vec<u8>,
    home: Option<Vec<u8>>,
    dir: Result<Vec<u8>, HostError>,
)
    requires
        call_ensures(PairingStore::default_dir, (Some(base), home), dir),
    ensures
        dir matches Ok(path) && is_store_dir_in(path@, base@) && path@.len() >= base@.len()
            && path@.take(base@.len() as int) == base@,
{
    names_are_relative();
    let mde = join_spec(base@, encode_utf8("mde"@));
    let path = join_spec(mde, encode_utf8("connect"@));
    join_gives_the_entry(base@, encode_utf8("mde"@));
    join_gives_the_entry(mde, encode_utf8("connect"@));
    assert(path.take(base@.len() as int) =~= path.take(mde.len() as int).take(base@.len() as int));
    assert(is_entry(mde, base@, encode_utf8("mde"@)));
}

/// Where `XDG_CONFIG_HOME` is set, the result does not depend on `HOME`.
pub proof fn home_is_only_a_fallback(
    base: Vec<u8>,
    one_home: Option<Vec<u8>>,
    other_home: Option<Vec<u8>>,
    one: Result<Vec<u8>, HostError>,
    other: Result<Vec<u8>, HostError>,
)
    requires
        call_ensures(PairingStore::default_dir, (Some(base), one_home), one),
        call_ensures(PairingStore::default_dir, (Some(base), other_home), other),
    ensures
        one matches Ok(one_path) && other matches Ok(other_path) && one_path@ == other_path@,
{
}

/// Where only `HOME` is set, the store is `mde/connect` in the entry `.config` of the
/// directory that it names.
pub proof fn home_holds_the_store(home: Vec<u8>, dir: Result<Vec<u8>, HostError>)
    requires
        call_ensures(PairingStore::default_dir, (None::<Vec<u8>>, Some(home)), dir),
    ensures
        dir matches Ok(path) && exists|base: Seq<u8>| #[trigger]
            is_entry(base, home@, encode_utf8(".config"@)) && is_store_dir_in(path@, base),
{
    names_are_relative();
    let base = join_spec(home@, encode_utf8(".config"@));
    let mde = join_spec(base, encode_utf8("mde"@));
    join_gives_the_entry(home@, encode_utf8(".config"@));
    join_gives_the_entry(base, encode_utf8("mde"@));
    join_gives_the_entry(mde, encode_utf8("connect"@));
    assert(is_entry(mde, base, encode_utf8("mde"@)));
    assert(is_entry(base, home@, encode_utf8(".config"@)));
    assert(is_store_dir_in(join_spec(mde, encode_utf8("connect"@)), base));
}

/// Setting only `HOME` gives what setting `XDG_CONFIG_HOME` to its entry `.config` gives.
pub proof fn home_stands_for_its_config(
    home: Vec<u8>,
    base: Vec<u8>,
    other_home: Option<Vec<u8>>,
    by_home: Result<Vec<u8>, HostError>,
    by_config_home: Result<Vec<u8>, HostError>,
)
    requires
        is_entry(base@, home@, encode_utf8(".config"@)),
        call_ensures(PairingStore::default_dir, (None::<Vec<u8>>, Some(home)), by_home),
        call_ensures(PairingStore::default_dir, (Some(base), other_home), by_config_home),
    ensures
        by_home matches Ok(one) && by_config_home matches Ok(other) && one@ == other@,
{
    names_are_relative();
    let config = join_spec(home@, encode_utf8(".config"@));
    join_gives_the_entry(home@, encode_utf8(".config"@));
    entry_is_unique(config, base@, home@, encode_utf8(".config"@));
}

/// There is no store directory exactly if neither variable is set, and then the error
/// says so.
pub proof fn store_dir_needs_a_variable(
    xdg_config_home: Option<Vec<u8>>,
    home: Option<Vec<u8>>,
    dir: Result<Vec<u8>, HostError>,
)
    requires
        call_ensures(PairingStore::default_dir, (xdg_config_home, home), dir),
    ensures
        dir is Err <==> xdg_config_home is None && home is None,
        dir matches Err(error) ==> error is NoConfigDir,
{
}

} // verus!
