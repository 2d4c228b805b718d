//! Decision helpers of the setup area: which packages come from the user
//! repository, how sandbox containers are named, how partition paths are
//! derived, and how tool listings (device tables, checksum files) are read.

use vstd::prelude::*;

use crate::text::{concat2, concat3, contains_seq, contains_sub, dec_rep, ends_with,
    ends_with_spec, first_at, lines_of, lines_vec, raw_split, remove_all, remove_all_str, split_char_vec,
    split_ws, split_ws_vec, starts_with, starts_with_spec, str_eq, strs_view, u32_dec};

verus! {

/// The heuristic for user-repository packages: the conventional binary and
/// source suffixes, and a handful of names known to live there.
pub open spec fn is_aur_spec(p: Seq<char>) -> bool {
    ||| ends_with_spec(p, "-bin"@)
    ||| ends_with_spec(p, "-git"@)
    ||| contains_seq(p, "brave"@)
    ||| contains_seq(p, "obsidian"@)
    ||| contains_seq(p, "visual-studio"@)
    ||| contains_seq(p, "google-chrome"@)
    ||| contains_seq(p, "spotify"@)
}

/// Whether a package is installed from the user repository.
pub fn is_aur_package(pkg: &str) -> (r: bool)
    ensures
        r == is_aur_spec(pkg@),
{
    ends_with(pkg, "-bin") || ends_with(pkg, "-git") || contains_sub(pkg, "brave")
        || contains_sub(pkg, "obsidian") || contains_sub(pkg, "visual-studio") || contains_sub(
        pkg,
        "google-chrome",
    ) || contains_sub(pkg, "spotify")
}

/// The officially packaged members of a list, in order.
pub open spec fn official_of(ps: Seq<Seq<char>>) -> Seq<Seq<char>>
    decreases ps.len(),
{
    if ps.len() == 0 {
        Seq::empty()
    } else {
        let rest = official_of(ps.drop_last());
        if is_aur_spec(ps.last()) {
            rest
        } else {
            rest.push(ps.last())
        }
    }
}

/// The user-repository members of a list, in order.
pub open spec fn aur_of(ps: Seq<Seq<char>>) -> Seq<Seq<char>>
    decreases ps.len(),
{
    if ps.len() == 0 {
        Seq::empty()
    } else {
        let rest = aur_of(ps.drop_last());
        if is_aur_spec(ps.last()) {
            rest.push(ps.last())
        } else {
            rest
        }
    }
}

/// Split a package list into its official and user-repository members, each
/// in the original order.
pub fn partition_aur(pkgs: &Vec<String>) -> (r: (Vec<String>, Vec<String>))
    ensures
        strs_view(r.0@) == official_of(strs_view(pkgs@)),
        strs_view(r.1@) == aur_of(strs_view(pkgs@)),
{
    let ghost ps = strs_view(pkgs@);
    let mut official: Vec<String> = Vec::new();
    let mut aur: Vec<String> = Vec::new();
    let mut i: usize = 0;
    proof {
        assert(ps.take(0) =~= Seq::<Seq<char>>::empty());
        assert(strs_view(official@) =~~= official_of(ps.take(0)));
        assert(strs_view(aur@) =~~= aur_of(ps.take(0)));
    }
    while i < pkgs.len()
        invariant
            i <= pkgs@.len(),
            ps == strs_view(pkgs@),
            strs_view(official@) == official_of(ps.take(i as int)),
            strs_view(aur@) == aur_of(ps.take(i as int)),
        decreases pkgs@.len() - i,
    {
        proof {
            assert(ps.take(i + 1).drop_last() =~= ps.take(i as int));
            assert(ps.take(i + 1).last() == ps[i as int]);
            assert(ps[i as int] == pkgs@[i as int]@);
        }
        if is_aur_package(pkgs[i].as_str()) {
            aur.push(pkgs[i].clone());
            proof {
                assert(strs_view(aur@) =~~= aur_of(ps.take(i + 1)));
                assert(strs_view(official@) =~~= official_of(ps.take(i + 1)));
            }
        } else {
            official.push(pkgs[i].clone());
            proof {
                assert(strs_view(official@) =~~= official_of(ps.take(i + 1)));
                assert(strs_view(aur@) =~~= aur_of(ps.take(i + 1)));
            }
        }
        i += 1;
    }
    proof {
        assert(ps.take(ps.len() as int) =~= ps);
    }
    (official, aur)
}

/// Sandbox containers carry a fixed name prefix; a name that already has it
/// is kept, any other gets it prepended.
pub open spec fn container_name_spec(name: Seq<char>) -> Seq<char> {
    if starts_with_spec(name, "cloud-sandbox-"@) {
        name
    } else {
        "cloud-sandbox-"@ + name
    }
}

/// The full container name for a sandbox.
pub fn full_container_name(name: &str) -> (r: String)
    ensures
        r@ == container_name_spec(name@),
{
    if starts_with(name, "cloud-sandbox-") {
        name.to_owned()
    } else {
        concat2("cloud-sandbox-", name)
    }
}

/// A device's numbered partition path: device names with an embedded
/// controller marker take a `p` separator before the number.
pub open spec fn partition_path_spec(device: Seq<char>, num: u32) -> Seq<char> {
    if contains_seq(device, "nvme"@) || contains_seq(device, "mmcblk"@) {
        device + "p"@ + dec_rep(num as nat)
    } else {
        device + dec_rep(num as nat)
    }
}

/// The path of a device's numbered partition.
pub fn get_partition_path(device: &str, num: u32) -> (r: String)
    ensures
        r@ == partition_path_spec(device@, num),
{
    let n = u32_dec(num);
    if contains_sub(device, "nvme") || contains_sub(device, "mmcblk") {
        concat3(device, "p", n.as_str())
    } else {
        concat2(device, n.as_str())
    }
}

/// One sandbox container of the container listing.
pub struct SandboxRow {
    /// The container's name with the sandbox prefix removed.
    pub name: String,
    /// The status as the engine printed it.
    pub status: String,
    /// The image the container runs.
    pub image: String,
    /// Whether the status text marks the container as up.
    pub running: bool,
}

/// A line of the tab-separated container listing describes a sandbox when it
/// has three fields and its name carries the prefix (or is the stock
/// desktop container's name).
pub open spec fn is_sandbox_line(line: Seq<char>, prefix: Seq<char>) -> bool {
    let parts = raw_split(line, '\t');
    parts.len() >= 3 && (starts_with_spec(parts[0], prefix) || parts[0] == "cloud-desktop"@)
}

/// The row read off one sandbox line: the prefix (with its joining dash)
/// removed from the name, the status and image as printed, and the running
/// flag read off the status text.
pub open spec fn sandbox_row_of(line: Seq<char>, prefix: Seq<char>) -> (Seq<char>, Seq<char>, Seq<
    char,
>, bool) {
    let parts = raw_split(line, '\t');
    (
        remove_all(parts[0], prefix + "-"@),
        parts[1],
        parts[2],
        contains_seq(parts[1], "Up"@),
    )
}

/// The sandbox rows of a container listing, in order.
pub open spec fn sandbox_rows_spec(lines: Seq<Seq<char>>, prefix: Seq<char>) -> Seq<(Seq<char>, Seq<
    char,
>, Seq<char>, bool)>
    decreases lines.len(),
{
    if lines.len() == 0 {
        Seq::empty()
    } else {
        let rest = sandbox_rows_spec(lines.drop_last(), prefix);
        if is_sandbox_line(lines.last(), prefix) {
            rest.push(sandbox_row_of(lines.last(), prefix))
        } else {
            rest
        }
    }
}

/// The text fields of a sequence of sandbox rows.
pub open spec fn sandbox_rows_view(v: Seq<SandboxRow>) -> Seq<(Seq<char>, Seq<char>, Seq<char>,
    bool,
)> {
    v.map_values(|x: SandboxRow| (x.name@, x.status@, x.image@, x.running))
}

/// Read the sandboxes out of the tab-separated container listing.
pub fn sandbox_rows(listing: &str, prefix: &str) -> (r: Vec<SandboxRow>)
    ensures
        sandbox_rows_view(r@) == sandbox_rows_spec(lines_of(listing@), prefix@),
{
    let lines = lines_vec(listing);
    let ghost ls = strs_view(lines@);
    let dash_prefix = concat2(prefix, "-");
    let mut out: Vec<SandboxRow> = Vec::new();
    let mut i: usize = 0;
    proof {
        assert(ls.take(0) =~= Seq::<Seq<char>>::empty());
        assert(sandbox_rows_view(out@) =~~= sandbox_rows_spec(ls.take(0), prefix@));
    }
    while i < lines.len()
        invariant
            i <= lines@.len(),
            ls == strs_view(lines@),
            ls == lines_of(listing@),
            dash_prefix@ == prefix@ + "-"@,
            sandbox_rows_view(out@) == sandbox_rows_spec(ls.take(i as int), prefix@),
        decreases lines@.len() - i,
    {
        proof {
            assert(ls.take(i + 1).drop_last() =~= ls.take(i as int));
            assert(ls.take(i + 1).last() == ls[i as int]);
            assert(ls[i as int] == lines@[i as int]@);
        }
        let parts = split_char_vec(lines[i].as_str(), '\t');
        proof {
            assert(strs_view(parts@) == raw_split(ls[i as int], '\t'));
        }
        if parts.len() >= 3 && (starts_with(parts[0].as_str(), prefix)
            || str_eq(parts[0].as_str(), "cloud-desktop")) {
            proof {
                assert(strs_view(parts@)[0] == parts@[0]@);
                assert(is_sandbox_line(ls[i as int], prefix@));
            }
            let row = SandboxRow {
                name: remove_all_str(parts[0].as_str(), dash_prefix.as_str()),
                status: parts[1].clone(),
                image: parts[2].clone(),
                running: contains_sub(parts[1].as_str(), "Up"),
            };
            proof {
                assert(strs_view(parts@)[1] == parts@[1]@);
                assert(strs_view(parts@)[2] == parts@[2]@);
            }
            out.push(row);
            proof {
                assert(sandbox_rows_view(out@) =~~= sandbox_rows_spec(ls.take(i + 1), prefix@));
            }
        } else {
            proof {
                if strs_view(parts@).len() >= 3 {
                    assert(strs_view(parts@)[0] == parts@[0]@);
                }
                assert(!is_sandbox_line(ls[i as int], prefix@));
                assert(sandbox_rows_view(out@) =~~= sandbox_rows_spec(ls.take(i + 1), prefix@));
            }
        }
        i += 1;
    }
    proof {
        assert(ls.take(ls.len() as int) =~= ls);
    }
    out
}

/// The gates before a device is written, checked in order: the path must sit
/// under the device tree, the device must exist, and it must hold at least
/// eight gigabytes; each failure carries its exact message.
pub fn usb_device_check(device: &str, device_exists: bool, size_gb: u64) -> (r: Result<
    (),
    String,
>)
    ensures
        !starts_with_spec(device@, "/dev/"@) ==> (r matches Err(m) && m@
            == "Invalid device path. Use format: /dev/sdX"@),
        starts_with_spec(device@, "/dev/"@) && !device_exists ==> (r matches Err(m) && m@
            == "Device not found: "@ + device@),
        starts_with_spec(device@, "/dev/"@) && device_exists && size_gb < 8 ==> (r matches Err(m)
            && m@ == "Device too small. Minimum 8GB required, 16GB+ recommended. Found: "@
            + dec_rep(size_gb as nat) + "GB"@),
        starts_with_spec(device@, "/dev/"@) && device_exists && size_gb >= 8 ==> r is Ok,
{
    if !starts_with(device, "/dev/") {
        Err(String::from_str("Invalid device path. Use format: /dev/sdX"))
    } else if !device_exists {
        Err(concat2("Device not found: ", device))
    } else if size_gb < 8 {
        let figure = crate::text::u64_dec(size_gb);
        let head = concat2(
            "Device too small. Minimum 8GB required, 16GB+ recommended. Found: ",
            figure.as_str(),
        );
        Err(concat2(head.as_str(), "GB"))
    } else {
        Ok(())
    }
}

/// The image name a mirror-listing line offers: on a line that names an
/// image (and is no signature link), the text from the name's start through
/// the extension.
pub open spec fn iso_name_of_line(line: Seq<char>) -> Option<Seq<char>> {
    if contains_seq(line, "archlinux-"@) && contains_seq(line, "-x86_64.iso\""@) && !contains_seq(
        line,
        ".sig"@,
    ) {
        match first_at(line, "archlinux-"@) {
            Some(i) => {
                let rest = line.skip(i);
                match first_at(rest, ".iso"@) {
                    Some(j) => Some(rest.take(j) + ".iso"@),
                    None => None,
                }
            },
            None => None,
        }
    } else {
        None
    }
}

/// The image name the mirror listing offers: the first line's offer, in
/// order.
pub open spec fn latest_iso_spec(lines: Seq<Seq<char>>) -> Option<Seq<char>>
    decreases lines.len(),
{
    if lines.len() == 0 {
        None
    } else {
        match iso_name_of_line(lines[0]) {
            Some(n) => Some(n),
            None => latest_iso_spec(lines.drop_first()),
        }
    }
}

proof fn lemma_latest_iso_skip(lines: Seq<Seq<char>>, i: int)
    requires
        0 <= i <= lines.len(),
        forall|k: int| 0 <= k < i ==> iso_name_of_line(#[trigger] lines[k]) is None,
    ensures
        latest_iso_spec(lines) == latest_iso_spec(lines.skip(i)),
    decreases i,
{
    if i == 0 {
        assert(lines.skip(0) =~= lines);
    } else {
        let d = lines.drop_first();
        assert forall|k: int| 0 <= k < i - 1 implies iso_name_of_line(#[trigger] d[k]) is None by {
            assert(d[k] == lines[k + 1]);
        }
        lemma_latest_iso_skip(d, i - 1);
        assert(d.skip(i - 1) =~= lines.skip(i));
    }
}

/// Read the current image name out of the mirror listing; the conventional
/// name stands in when the listing offers none.
pub fn latest_iso_name(html: &str) -> (r: String)
    ensures
        match latest_iso_spec(lines_of(html@)) {
            Some(n) => r@ == n,
            None => r@ == "archlinux-x86_64.iso"@,
        },
{
    let lines = lines_vec(html);
    let ghost ls = strs_view(lines@);
    let mut i: usize = 0;
    while i < lines.len()
        invariant
            i <= lines@.len(),
            ls == strs_view(lines@),
            ls == lines_of(html@),
            forall|k: int| 0 <= k < i ==> iso_name_of_line(#[trigger] ls[k]) is None,
        decreases lines@.len() - i,
    {
        let line = lines[i].as_str();
        proof {
            assert(ls[i as int] == lines@[i as int]@);
        }
        if contains_sub(line, "archlinux-") && contains_sub(line, "-x86_64.iso\"")
            && !contains_sub(line, ".sig") {
            let n = line.unicode_len();
            match crate::text::find_first(line, "archlinux-") {
                Some(at) => {
                    proof {
                        crate::text::lemma_first_at_characterization(line@, "archlinux-"@);
                        assert(at + "archlinux-"@.len() <= n);
                    }
                    let rest = line.substring_char(at, n);
                    proof {
                        assert(rest@ =~= line@.skip(at as int));
                    }
                    match crate::text::find_first(rest, ".iso") {
                        Some(j) => {
                            proof {
                                crate::text::lemma_first_at_characterization(rest@, ".iso"@);
                                lemma_latest_iso_skip(ls, i as int);
                                assert(ls.skip(i as int)[0] == ls[i as int]);
                            }
                            let head = rest.substring_char(0, j);
                            let name = concat2(head, ".iso");
                            proof {
                                assert(head@ =~= rest@.take(j as int));
                            }
                            return name;
                        },
                        None => {
                        },
                    }
                },
                None => {
                },
            }
        }
        proof {
            assert(iso_name_of_line(ls[i as int]) is None);
        }
        i += 1;
    }
    proof {
        lemma_latest_iso_skip(ls, i as int);
        assert(ls.skip(i as int) =~~= Seq::<Seq<char>>::empty());
    }
    String::from_str("archlinux-x86_64.iso")
}

/// The total-memory figure of the kernel's memory report: on the first line
/// opening with the total-memory tag, the second whitespace token (the
/// kilobyte count); nothing when that line is missing or short.
pub open spec fn mem_total_token(lines: Seq<Seq<char>>) -> Option<Seq<char>>
    decreases lines.len(),
{
    if lines.len() == 0 {
        None
    } else if starts_with_spec(lines[0], "MemTotal:"@) {
        if split_ws(lines[0]).len() >= 2 {
            Some(split_ws(lines[0])[1])
        } else {
            None
        }
    } else {
        mem_total_token(lines.drop_first())
    }
}

proof fn lemma_mem_total_skip(lines: Seq<Seq<char>>, i: int)
    requires
        0 <= i <= lines.len(),
        forall|k: int| 0 <= k < i ==> !starts_with_spec(#[trigger] lines[k], "MemTotal:"@),
    ensures
        mem_total_token(lines) == mem_total_token(lines.skip(i)),
    decreases i,
{
    if i == 0 {
        assert(lines.skip(0) =~= lines);
    } else {
        let d = lines.drop_first();
        assert forall|k: int| 0 <= k < i - 1 implies !starts_with_spec(
            #[trigger] d[k],
            "MemTotal:"@,
        ) by {
            assert(d[k] == lines[k + 1]);
        }
        lemma_mem_total_skip(d, i - 1);
        assert(d.skip(i - 1) =~= lines.skip(i));
    }
}

/// Read the total-memory kilobyte count out of the kernel's memory report,
/// as the text of the figure; turning it into a number is the caller's step.
pub fn mem_total_field(meminfo: &str) -> (r: Option<String>)
    ensures
        match r {
            Some(s) => mem_total_token(lines_of(meminfo@)) == Some(s@),
            None => mem_total_token(lines_of(meminfo@)) is None,
        },
{
    let lines = lines_vec(meminfo);
    let ghost ls = strs_view(lines@);
    let mut i: usize = 0;
    while i < lines.len()
        invariant
            i <= lines@.len(),
            ls == strs_view(lines@),
            ls == lines_of(meminfo@),
            forall|k: int| 0 <= k < i ==> !starts_with_spec(#[trigger] ls[k], "MemTotal:"@),
        decreases lines@.len() - i,
    {
        if starts_with(lines[i].as_str(), "MemTotal:") {
            proof {
                lemma_mem_total_skip(ls, i as int);
                assert(ls.skip(i as int)[0] == ls[i as int]);
                assert(ls[i as int] == lines@[i as int]@);
            }
            let toks = split_ws_vec(lines[i].as_str());
            proof {
                assert(strs_view(toks@) == split_ws(ls[i as int]));
            }
            if toks.len() >= 2 {
                proof {
                    assert(strs_view(toks@)[1] == toks@[1]@);
                }
                return Some(toks[1].clone());
            } else {
                return None;
            }
        }
        i += 1;
    }
    proof {
        lemma_mem_total_skip(ls, i as int);
        assert(ls.skip(i as int) =~~= Seq::<Seq<char>>::empty());
    }
    None
}

/// The checksum listed for a file: on the first line that names the file and
/// has any token at all, the first token.
pub open spec fn checksum_pick(lines: Seq<Seq<char>>, name: Seq<char>) -> Option<Seq<char>>
    decreases lines.len(),
{
    if lines.len() == 0 {
        None
    } else if contains_seq(lines[0], name) && split_ws(lines[0]).len() > 0 {
        Some(split_ws(lines[0])[0])
    } else {
        checksum_pick(lines.drop_first(), name)
    }
}

proof fn lemma_checksum_pick_skip(lines: Seq<Seq<char>>, name: Seq<char>, i: int)
    requires
        0 <= i <= lines.len(),
        forall|k: int| 0 <= k < i ==> !(contains_seq(#[trigger] lines[k], name) && split_ws(
            lines[k],
        ).len() > 0),
    ensures
        checksum_pick(lines, name) == checksum_pick(lines.skip(i), name),
    decreases i,
{
    if i == 0 {
        assert(lines.skip(0) =~= lines);
    } else {
        let d = lines.drop_first();
        assert forall|k: int| 0 <= k < i - 1 implies !(contains_seq(#[trigger] d[k], name)
            && split_ws(d[k]).len() > 0) by {
            assert(d[k] == lines[k + 1]);
        }
        lemma_checksum_pick_skip(d, name, i - 1);
        assert(d.skip(i - 1) =~= lines.skip(i));
    }
}

/// One removable device of the block-device listing.
pub struct UsbDeviceRow {
    /// The device path, under the device tree root.
    pub device: String,
    /// The size as the tool printed it.
    pub size: String,
    /// The model, or a placeholder when the tool printed none.
    pub model: String,
    /// The mount point, or a dash when the tool printed none.
    pub mounted: String,
}

/// A line of the listing describes a removable device when its third token
/// is the removable transport tag.
pub open spec fn is_usb_line(line: Seq<char>) -> bool {
    split_ws(line).len() >= 3 && split_ws(line)[2] == "usb"@
}

/// The row read off one device line's tokens.
pub open spec fn usb_row_of(toks: Seq<Seq<char>>) -> (Seq<char>, Seq<char>, Seq<char>, Seq<
    char,
>) {
    (
        "/dev/"@ + toks[0],
        toks[1],
        if toks.len() >= 4 {
            toks[3]
        } else {
            "Unknown"@
        },
        if toks.len() >= 5 {
            toks[4]
        } else {
            "-"@
        },
    )
}

/// The removable-device rows of a listing, in order.
pub open spec fn usb_rows_spec(lines: Seq<Seq<char>>) -> Seq<(Seq<char>, Seq<char>, Seq<char>, Seq<
    char,
>)>
    decreases lines.len(),
{
    if lines.len() == 0 {
        Seq::empty()
    } else {
        let rest = usb_rows_spec(lines.drop_last());
        if is_usb_line(lines.last()) {
            rest.push(usb_row_of(split_ws(lines.last())))
        } else {
            rest
        }
    }
}

/// The text fields of a sequence of device rows.
pub open spec fn usb_rows_view(v: Seq<UsbDeviceRow>) -> Seq<(Seq<char>, Seq<char>, Seq<char>, Seq<
    char,
>)> {
    v.map_values(|x: UsbDeviceRow| (x.device@, x.size@, x.model@, x.mounted@))
}

/// Read the removable devices out of the block-device listing.
pub fn usb_device_rows(listing: &str) -> (r: Vec<UsbDeviceRow>)
    ensures
        usb_rows_view(r@) == usb_rows_spec(lines_of(listing@)),
{
    let lines = lines_vec(listing);
    let ghost ls = strs_view(lines@);
    let mut out: Vec<UsbDeviceRow> = Vec::new();
    let mut i: usize = 0;
    proof {
        assert(ls.take(0) =~= Seq::<Seq<char>>::empty());
        assert(usb_rows_view(out@) =~~= usb_rows_spec(ls.take(0)));
    }
    while i < lines.len()
        invariant
            i <= lines@.len(),
            ls == strs_view(lines@),
            ls == lines_of(listing@),
            usb_rows_view(out@) == usb_rows_spec(ls.take(i as int)),
        decreases lines@.len() - i,
    {
        proof {
            assert(ls.take(i + 1).drop_last() =~= ls.take(i as int));
            assert(ls.take(i + 1).last() == ls[i as int]);
            assert(ls[i as int] == lines@[i as int]@);
        }
        let toks = split_ws_vec(lines[i].as_str());
        proof {
            assert(strs_view(toks@) == split_ws(ls[i as int]));
        }
        if toks.len() >= 3 && str_eq(toks[2].as_str(), "usb") {
            proof {
                assert(strs_view(toks@)[2] == toks@[2]@);
                assert(is_usb_line(ls[i as int]));
            }
            let model = if toks.len() >= 4 {
                toks[3].clone()
            } else {
                String::from_str("Unknown")
            };
            let mounted = if toks.len() >= 5 {
                toks[4].clone()
            } else {
                String::from_str("-")
            };
            let row = UsbDeviceRow {
                device: concat2("/dev/", toks[0].as_str()),
                size: toks[1].clone(),
                model,
                mounted,
            };
            proof {
                assert(strs_view(toks@)[0] == toks@[0]@);
                assert(strs_view(toks@)[1] == toks@[1]@);
                if toks@.len() >= 4 {
                    assert(strs_view(toks@)[3] == toks@[3]@);
                }
                if toks@.len() >= 5 {
                    assert(strs_view(toks@)[4] == toks@[4]@);
                }
            }
            out.push(row);
            proof {
                assert(usb_rows_view(out@) =~~= usb_rows_spec(ls.take(i + 1)));
            }
        } else {
            proof {
                if strs_view(toks@).len() >= 3 {
                    assert(strs_view(toks@)[2] == toks@[2]@);
                }
                assert(!is_usb_line(ls[i as int]));
                assert(usb_rows_view(out@) =~~= usb_rows_spec(ls.take(i + 1)));
            }
        }
        i += 1;
    }
    proof {
        assert(ls.take(ls.len() as int) =~= ls);
    }
    out
}

/// Find the checksum a listing gives for a file name.
pub fn checksum_for(listing: &str, file_name: &str) -> (r: Option<String>)
    ensures
        match r {
            Some(s) => checksum_pick(lines_of(listing@), file_name@) == Some(s@),
            None => checksum_pick(lines_of(listing@), file_name@) is None,
        },
{
    let lines = lines_vec(listing);
    let ghost ls = strs_view(lines@);
    let mut i: usize = 0;
    while i < lines.len()
        invariant
            i <= lines@.len(),
            ls == strs_view(lines@),
            ls == lines_of(listing@),
            forall|k: int| 0 <= k < i ==> !(contains_seq(#[trigger] ls[k], file_name@)
                && split_ws(ls[k]).len() > 0),
        decreases lines@.len() - i,
    {
        if contains_sub(lines[i].as_str(), file_name) {
            let toks = split_ws_vec(lines[i].as_str());
            if toks.len() > 0 {
                proof {
                    lemma_checksum_pick_skip(ls, file_name@, i as int);
                    assert(ls.skip(i as int)[0] == ls[i as int]);
                    assert(strs_view(toks@) == split_ws(ls[i as int]));
                    assert(strs_view(toks@)[0] == toks@[0]@);
                }
                return Some(toks[0].clone());
            }
        }
        i += 1;
    }
    proof {
        lemma_checksum_pick_skip(ls, file_name@, i as int);
        assert(ls.skip(i as int) =~~= Seq::<Seq<char>>::empty());
    }
    None
}

} // verus!
