//! The container build script: its text as a function of a validated
//! configuration, and the function that writes it.
//!
//! Nothing from the configuration is escaped: the fields stand in the script
//! as they are.

use crate::config::{is_relative_entry, validate, Config, ConfigView, RawConfig};
use crate::error::ConfigError;
use vstd::prelude::*;

verus! {

/// The name under which the downloaded archive is kept during the build.
pub open spec fn archive_name() -> Seq<char> {
    "1.tar.gz"@
}

/// The directory of the image into which the archive is unpacked.
pub open spec fn install_root() -> Seq<char> {
    "/opt"@
}

/// The line that names the base image.
pub open spec fn base_line() -> Seq<char> {
    "FROM fedora"@
}

/// The line that downloads `url` to the archive. The command goes on in the
/// next line.
pub open spec fn download_line(url: Seq<char>) -> Seq<char> {
    "RUN curl -L -o "@ + archive_name() + " "@ + url + " && \\"@
}

/// The line that holds the archive's SHA-256 digest against `hash`:
/// `sha256sum` prints nothing, and fails the build where the two differ.
/// The command goes on in the next line.
pub open spec fn checksum_line(hash: Seq<char>) -> Seq<char> {
    "echo \""@ + hash + " "@ + archive_name() + "\" | sha256sum -c --status && \\"@
}

/// The line that unpacks the archive into the installation root.
pub open spec fn extract_line() -> Seq<char> {
    "tar -xzf "@ + archive_name() + " -C "@ + install_root()
}

/// The entries of `pkgs` in order, each followed by one space.
pub open spec fn package_list(pkgs: Seq<Seq<char>>) -> Seq<char>
    decreases pkgs.len(),
{
    if pkgs.len() == 0 {
        Seq::empty()
    } else {
        package_list(pkgs.drop_last()) + pkgs.last() + " "@
    }
}

/// The line that installs every package of `pkgs` without asking.
pub open spec fn install_line(pkgs: Seq<Seq<char>>) -> Seq<char> {
    "RUN dnf in -y "@ + package_list(pkgs)
}

/// The installation root joined with the relative path `entry`.
pub open spec fn installed_path(entry: Seq<char>) -> Seq<char>
    recommends
        is_relative_entry(entry),
{
    install_root() + "/"@ + entry
}

/// The line that makes the installed entry the container's default command.
pub open spec fn run_line(entry: Seq<char>) -> Seq<char> {
    "CMD "@ + installed_path(entry)
}

/// The whole script for `config`: the six lines in their order, with a line
/// feed between each two of them and none at the end.
pub open spec fn script_text(config: ConfigView) -> Seq<char> {
    base_line() + "\n"@ + download_line(config.url) + "\n"@ + checksum_line(config.hash) + "\n"@
        + extract_line() + "\n"@ + install_line(config.pkgs) + "\n"@ + run_line(config.entry)
}

fn push_download_line(out: &mut String, url: &str)
    ensures
        final(out)@ == old(out)@ + download_line(url@),
{
    out.append("RUN curl -L -o ");
    out.append("1.tar.gz");
    out.append(" ");
    out.append(url);
    out.append(" && \\");
    assert(out@ =~= old(out)@ + download_line(url@));
}

fn push_checksum_line(out: &mut String, hash: &str)
    ensures
        final(out)@ == old(out)@ + checksum_line(hash@),
{
    out.append("echo \"");
    out.append(hash);
    out.append(" ");
    out.append("1.tar.gz");
    out.append("\" | sha256sum -c --status && \\");
    assert(out@ =~= old(out)@ + checksum_line(hash@));
}

fn push_extract_line(out: &mut String)
    ensures
        final(out)@ == old(out)@ + extract_line(),
{
    out.append("tar -xzf ");
    out.append("1.tar.gz");
    out.append(" -C ");
    out.append("/opt");
    assert(out@ =~= old(out)@ + extract_line());
}

fn push_install_line(out: &mut String, pkgs: &Vec<String>)
    ensures
        final(out)@ == old(out)@ + install_line(pkgs.deep_view()),
{
    out.append("RUN dnf in -y ");
    let ghost start = out@;
    let ghost all = pkgs.deep_view();
    let mut i: usize = 0;
    while i < pkgs.len()
        invariant
            i <= pkgs.len(),
            all == pkgs.deep_view(),
            out@ == start + package_list(all.take(i as int)),
        decreases pkgs.len() - i,
    {
        out.append(pkgs[i].as_str());
        out.append(" ");
        proof {
            let next = all.take(i + 1);
            assert(next.drop_last() =~= all.take(i as int));
            assert(next.last() == pkgs[i as int]@);
            assert(out@ =~= start + package_list(next));
        }
        i += 1;
    }
    assert(all.take(i as int) =~= all);
    assert(out@ =~= old(out)@ + install_line(all));
}

fn push_run_line(out: &mut String, entry: &str)
    ensures
        final(out)@ == old(out)@ + run_line(entry@),
{
    out.append("CMD ");
    out.append("/opt");
    out.append("/");
    out.append(entry);
    assert(out@ =~= old(out)@ + run_line(entry@));
}

/// Writes the build script for `config`: the base image, the download of
/// the configured URL, the digest check, the extraction, the installation of
/// the packages in their order, and the default command, which is the entry
/// below the installation root; one line each, in this order.
///
/// The result is a function of the configuration's contents alone.
pub fn render(config: &Config) -> (script: String)
    ensures
        script@ == script_text(config@),
{
    let mut out = String::new();
    out.append("FROM fedora");
    out.append("\n");
    push_download_line(&mut out, config.url().as_str());
    out.append("\n");
    push_checksum_line(&mut out, config.hash());
    out.append("\n");
    push_extract_line(&mut out);
    out.append("\n");
    push_install_line(&mut out, config.pkgs());
    out.append("\n");
    push_run_line(&mut out, config.entry());
    assert(out@ =~= script_text(config@));
    out
}

/// Validates `raw` and writes the build script for it. Fails exactly where
/// validation fails, with validation's error; there is then no script.
pub fn build_script(raw: RawConfig) -> (res: Result<String, ConfigError>)
    ensures
        match validate(raw@) {
            Ok(config) => res matches Ok(script) && script@ == script_text(config),
            Err(e) => res == Err::<String, ConfigError>(e),
        },
{
    match Config::from_raw(raw) {
        Ok(config) => Ok(render(&config)),
        Err(e) => Err(e),
    }
}

/// Rendering is deterministic: two configurations with equal contents have
/// the same script, character for character.
pub proof fn lemma_render_deterministic(a: Config, b: Config)
    requires
        a@ == b@,
    ensures
        script_text(a@) == script_text(b@),
{
}

} // verus!
