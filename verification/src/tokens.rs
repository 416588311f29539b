//! The fixed vocabulary of the pipeline: program names, flags and file
//! names, each as a specification-level byte string with its executable
//! counterpart.  The strings are given in the doc comments; the sequences
//! are their ASCII bytes.
use vstd::prelude::*;
use crate::bytes;

verus! {

/// The archive extractor's program name.  (`ar`)
pub open spec fn tool_ar() -> Seq<u8> {
    seq![97u8, 114u8]
}

/// The executable form of `tool_ar`.
pub fn tool_ar_vec() -> (r: Vec<u8>)
    ensures
        r@ == tool_ar(),
{
    let arr: [u8; 2] = [97u8, 114u8];
    let r = bytes::to_vec(arr.as_slice());
    proof {
        assert(r@ =~= tool_ar());
    }
    r
}

/// The linker's program name.  (`ld`)
pub open spec fn tool_ld() -> Seq<u8> {
    seq![108u8, 100u8]
}

/// The executable form of `tool_ld`.
pub fn tool_ld_vec() -> (r: Vec<u8>)
    ensures
        r@ == tool_ld(),
{
    let arr: [u8; 2] = [108u8, 100u8];
    let r = bytes::to_vec(arr.as_slice());
    proof {
        assert(r@ =~= tool_ld());
    }
    r
}

/// The section copier's program name.  (`objcopy`)
pub open spec fn tool_objcopy() -> Seq<u8> {
    seq![111u8, 98u8, 106u8, 99u8, 111u8, 112u8, 121u8]
}

/// The executable form of `tool_objcopy`.
pub fn tool_objcopy_vec() -> (r: Vec<u8>)
    ensures
        r@ == tool_objcopy(),
{
    let arr: [u8; 7] = [111u8, 98u8, 106u8, 99u8, 111u8, 112u8, 121u8];
    let r = bytes::to_vec(arr.as_slice());
    proof {
        assert(r@ =~= tool_objcopy());
    }
    r
}

/// The symbol-table dumper's program name.  (`nm`)
pub open spec fn tool_nm() -> Seq<u8> {
    seq![110u8, 109u8]
}

/// The executable form of `tool_nm`.
pub fn tool_nm_vec() -> (r: Vec<u8>)
    ensures
        r@ == tool_nm(),
{
    let arr: [u8; 2] = [110u8, 109u8];
    let r = bytes::to_vec(arr.as_slice());
    proof {
        assert(r@ =~= tool_nm());
    }
    r
}

/// The assembler's program name.  (`nasm`)
pub open spec fn tool_nasm() -> Seq<u8> {
    seq![110u8, 97u8, 115u8, 109u8]
}

/// The executable form of `tool_nasm`.
pub fn tool_nasm_vec() -> (r: Vec<u8>)
    ensures
        r@ == tool_nasm(),
{
    let arr: [u8; 4] = [110u8, 97u8, 115u8, 109u8];
    let r = bytes::to_vec(arr.as_slice());
    proof {
        assert(r@ =~= tool_nasm());
    }
    r
}

/// The fallback compiler's program name.  (`rustc`)
pub open spec fn tool_rustc() -> Seq<u8> {
    seq![114u8, 117u8, 115u8, 116u8, 99u8]
}

/// The executable form of `tool_rustc`.
pub fn tool_rustc_vec() -> (r: Vec<u8>)
    ensures
        r@ == tool_rustc(),
{
    let arr: [u8; 5] = [114u8, 117u8, 115u8, 116u8, 99u8];
    let r = bytes::to_vec(arr.as_slice());
    proof {
        assert(r@ =~= tool_rustc());
    }
    r
}

/// Archiver mode: extract members.  (`x`)
pub open spec fn tok_extract() -> Seq<u8> {
    seq![120u8]
}

/// The executable form of `tok_extract`.
pub fn tok_extract_vec() -> (r: Vec<u8>)
    ensures
        r@ == tok_extract(),
{
    let arr: [u8; 1] = [120u8];
    let r = bytes::to_vec(arr.as_slice());
    proof {
        assert(r@ =~= tok_extract());
    }
    r
}

/// Linker flag: discard unused sections.  (`--gc-sections`)
pub open spec fn tok_gc_sections() -> Seq<u8> {
    seq![45u8, 45u8, 103u8, 99u8, 45u8, 115u8, 101u8, 99u8, 116u8, 105u8, 111u8, 110u8, 115u8]
}

/// The executable form of `tok_gc_sections`.
pub fn tok_gc_sections_vec() -> (r: Vec<u8>)
    ensures
        r@ == tok_gc_sections(),
{
    let arr: [u8; 13] = [45u8, 45u8, 103u8, 99u8, 45u8, 115u8, 101u8, 99u8, 116u8, 105u8, 111u8, 110u8, 115u8];
    let r = bytes::to_vec(arr.as_slice());
    proof {
        assert(r@ =~= tok_gc_sections());
    }
    r
}

/// Linker flag introducing the entry symbol.  (`-e`)
pub open spec fn tok_entry_flag() -> Seq<u8> {
    seq![45u8, 101u8]
}

/// The executable form of `tok_entry_flag`.
pub fn tok_entry_flag_vec() -> (r: Vec<u8>)
    ensures
        r@ == tok_entry_flag(),
{
    let arr: [u8; 2] = [45u8, 101u8];
    let r = bytes::to_vec(arr.as_slice());
    proof {
        assert(r@ =~= tok_entry_flag());
    }
    r
}

/// The entry symbol's name.  (`main`)
pub open spec fn tok_entry_symbol() -> Seq<u8> {
    seq![109u8, 97u8, 105u8, 110u8]
}

/// The executable form of `tok_entry_symbol`.
pub fn tok_entry_symbol_vec() -> (r: Vec<u8>)
    ensures
        r@ == tok_entry_symbol(),
{
    let arr: [u8; 4] = [109u8, 97u8, 105u8, 110u8];
    let r = bytes::to_vec(arr.as_slice());
    proof {
        assert(r@ =~= tok_entry_symbol());
    }
    r
}

/// Linker flag introducing the layout script.  (`-T`)
pub open spec fn tok_script_flag() -> Seq<u8> {
    seq![45u8, 84u8]
}

/// The executable form of `tok_script_flag`.
pub fn tok_script_flag_vec() -> (r: Vec<u8>)
    ensures
        r@ == tok_script_flag(),
{
    let arr: [u8; 2] = [45u8, 84u8];
    let r = bytes::to_vec(arr.as_slice());
    proof {
        assert(r@ =~= tok_script_flag());
    }
    r
}

/// Output-path flag shared by the tools.  (`-o`)
pub open spec fn tok_out_flag() -> Seq<u8> {
    seq![45u8, 111u8]
}

/// The executable form of `tok_out_flag`.
pub fn tok_out_flag_vec() -> (r: Vec<u8>)
    ensures
        r@ == tok_out_flag(),
{
    let arr: [u8; 2] = [45u8, 111u8];
    let r = bytes::to_vec(arr.as_slice());
    proof {
        assert(r@ =~= tok_out_flag());
    }
    r
}

/// Section copier flag introducing the kept section.  (`-j`)
pub open spec fn tok_section_flag() -> Seq<u8> {
    seq![45u8, 106u8]
}

/// The executable form of `tok_section_flag`.
pub fn tok_section_flag_vec() -> (r: Vec<u8>)
    ensures
        r@ == tok_section_flag(),
{
    let arr: [u8; 2] = [45u8, 106u8];
    let r = bytes::to_vec(arr.as_slice());
    proof {
        assert(r@ =~= tok_section_flag());
    }
    r
}

/// The single output section of the layout script.  (`combined`)
pub open spec fn tok_section_name() -> Seq<u8> {
    seq![99u8, 111u8, 109u8, 98u8, 105u8, 110u8, 101u8, 100u8]
}

/// The executable form of `tok_section_name`.
pub fn tok_section_name_vec() -> (r: Vec<u8>)
    ensures
        r@ == tok_section_name(),
{
    let arr: [u8; 8] = [99u8, 111u8, 109u8, 98u8, 105u8, 110u8, 101u8, 100u8];
    let r = bytes::to_vec(arr.as_slice());
    proof {
        assert(r@ =~= tok_section_name());
    }
    r
}

/// Section copier flag introducing the output format, and the compiler's optimization flag.  (`-O`)
pub open spec fn tok_outfmt_flag() -> Seq<u8> {
    seq![45u8, 79u8]
}

/// The executable form of `tok_outfmt_flag`.
pub fn tok_outfmt_flag_vec() -> (r: Vec<u8>)
    ensures
        r@ == tok_outfmt_flag(),
{
    let arr: [u8; 2] = [45u8, 79u8];
    let r = bytes::to_vec(arr.as_slice());
    proof {
        assert(r@ =~= tok_outfmt_flag());
    }
    r
}

/// Section copier output format: flat bytes, no headers.  (`binary`)
pub open spec fn tok_binary() -> Seq<u8> {
    seq![98u8, 105u8, 110u8, 97u8, 114u8, 121u8]
}

/// The executable form of `tok_binary`.
pub fn tok_binary_vec() -> (r: Vec<u8>)
    ensures
        r@ == tok_binary(),
{
    let arr: [u8; 6] = [98u8, 105u8, 110u8, 97u8, 114u8, 121u8];
    let r = bytes::to_vec(arr.as_slice());
    proof {
        assert(r@ =~= tok_binary());
    }
    r
}

/// Format flag shared by the symbol dumper and the assembler.  (`-f`)
pub open spec fn tok_format_flag() -> Seq<u8> {
    seq![45u8, 102u8]
}

/// The executable form of `tok_format_flag`.
pub fn tok_format_flag_vec() -> (r: Vec<u8>)
    ensures
        r@ == tok_format_flag(),
{
    let arr: [u8; 2] = [45u8, 102u8];
    let r = bytes::to_vec(arr.as_slice());
    proof {
        assert(r@ =~= tok_format_flag());
    }
    r
}

/// Symbol dumper format: line-stable report.  (`posix`)
pub open spec fn tok_posix() -> Seq<u8> {
    seq![112u8, 111u8, 115u8, 105u8, 120u8]
}

/// The executable form of `tok_posix`.
pub fn tok_posix_vec() -> (r: Vec<u8>)
    ensures
        r@ == tok_posix(),
{
    let arr: [u8; 5] = [112u8, 111u8, 115u8, 105u8, 120u8];
    let r = bytes::to_vec(arr.as_slice());
    proof {
        assert(r@ =~= tok_posix());
    }
    r
}

/// Assembler output format: flat binary.  (`bin`)
pub open spec fn tok_bin() -> Seq<u8> {
    seq![98u8, 105u8, 110u8]
}

/// The executable form of `tok_bin`.
pub fn tok_bin_vec() -> (r: Vec<u8>)
    ensures
        r@ == tok_bin(),
{
    let arr: [u8; 3] = [98u8, 105u8, 110u8];
    let r = bytes::to_vec(arr.as_slice());
    proof {
        assert(r@ =~= tok_bin());
    }
    r
}

/// Compiler flag introducing a codegen option.  (`-C`)
pub open spec fn tok_codegen_flag() -> Seq<u8> {
    seq![45u8, 67u8]
}

/// The executable form of `tok_codegen_flag`.
pub fn tok_codegen_flag_vec() -> (r: Vec<u8>)
    ensures
        r@ == tok_codegen_flag(),
{
    let arr: [u8; 2] = [45u8, 67u8];
    let r = bytes::to_vec(arr.as_slice());
    proof {
        assert(r@ =~= tok_codegen_flag());
    }
    r
}

/// Codegen option: no runtime relocation.  (`relocation-model=static`)
pub open spec fn tok_static_reloc() -> Seq<u8> {
    seq![114u8, 101u8, 108u8, 111u8, 99u8, 97u8, 116u8, 105u8, 111u8, 110u8, 45u8, 109u8, 111u8, 100u8, 101u8, 108u8, 61u8, 115u8, 116u8, 97u8, 116u8, 105u8, 99u8]
}

/// The executable form of `tok_static_reloc`.
pub fn tok_static_reloc_vec() -> (r: Vec<u8>)
    ensures
        r@ == tok_static_reloc(),
{
    let arr: [u8; 23] = [114u8, 101u8, 108u8, 111u8, 99u8, 97u8, 116u8, 105u8, 111u8, 110u8, 45u8, 109u8, 111u8, 100u8, 101u8, 108u8, 61u8, 115u8, 116u8, 97u8, 116u8, 105u8, 99u8];
    let r = bytes::to_vec(arr.as_slice());
    proof {
        assert(r@ =~= tok_static_reloc());
    }
    r
}

/// Compiler flag introducing the named dependency.  (`--extern`)
pub open spec fn tok_extern_flag() -> Seq<u8> {
    seq![45u8, 45u8, 101u8, 120u8, 116u8, 101u8, 114u8, 110u8]
}

/// The executable form of `tok_extern_flag`.
pub fn tok_extern_flag_vec() -> (r: Vec<u8>)
    ensures
        r@ == tok_extern_flag(),
{
    let arr: [u8; 8] = [45u8, 45u8, 101u8, 120u8, 116u8, 101u8, 114u8, 110u8];
    let r = bytes::to_vec(arr.as_slice());
    proof {
        assert(r@ =~= tok_extern_flag());
    }
    r
}

/// The one external dependency archive, linked by name.  (`sc=syscall.rs/target/release/libsc.rlib`)
pub open spec fn tok_extern_dep() -> Seq<u8> {
    seq![115u8, 99u8, 61u8, 115u8, 121u8, 115u8, 99u8, 97u8, 108u8, 108u8, 46u8, 114u8, 115u8, 47u8, 116u8, 97u8, 114u8, 103u8, 101u8, 116u8, 47u8, 114u8, 101u8, 108u8, 101u8, 97u8, 115u8, 101u8, 47u8, 108u8, 105u8, 98u8, 115u8, 99u8, 46u8, 114u8, 108u8, 105u8, 98u8]
}

/// The executable form of `tok_extern_dep`.
pub fn tok_extern_dep_vec() -> (r: Vec<u8>)
    ensures
        r@ == tok_extern_dep(),
{
    let arr: [u8; 39] = [115u8, 99u8, 61u8, 115u8, 121u8, 115u8, 99u8, 97u8, 108u8, 108u8, 46u8, 114u8, 115u8, 47u8, 116u8, 97u8, 114u8, 103u8, 101u8, 116u8, 47u8, 114u8, 101u8, 108u8, 101u8, 97u8, 115u8, 101u8, 47u8, 108u8, 105u8, 98u8, 115u8, 99u8, 46u8, 114u8, 108u8, 105u8, 98u8];
    let r = bytes::to_vec(arr.as_slice());
    proof {
        assert(r@ =~= tok_extern_dep());
    }
    r
}

/// Assembler define carrying the resolved entry address.  (`-D entry=0x`)
pub open spec fn tok_entry_def_prefix() -> Seq<u8> {
    seq![45u8, 68u8, 32u8, 101u8, 110u8, 116u8, 114u8, 121u8, 61u8, 48u8, 120u8]
}

/// The executable form of `tok_entry_def_prefix`.
pub fn tok_entry_def_prefix_vec() -> (r: Vec<u8>)
    ensures
        r@ == tok_entry_def_prefix(),
{
    let arr: [u8; 11] = [45u8, 68u8, 32u8, 101u8, 110u8, 116u8, 114u8, 121u8, 61u8, 48u8, 120u8];
    let r = bytes::to_vec(arr.as_slice());
    proof {
        assert(r@ =~= tok_entry_def_prefix());
    }
    r
}

/// Assembler define opening the quoted payload path.  (`-D PAYLOAD_PATH="`)
pub open spec fn tok_payload_def_prefix() -> Seq<u8> {
    seq![45u8, 68u8, 32u8, 80u8, 65u8, 89u8, 76u8, 79u8, 65u8, 68u8, 95u8, 80u8, 65u8, 84u8, 72u8, 61u8, 34u8]
}

/// The executable form of `tok_payload_def_prefix`.
pub fn tok_payload_def_prefix_vec() -> (r: Vec<u8>)
    ensures
        r@ == tok_payload_def_prefix(),
{
    let arr: [u8; 17] = [45u8, 68u8, 32u8, 80u8, 65u8, 89u8, 76u8, 79u8, 65u8, 68u8, 95u8, 80u8, 65u8, 84u8, 72u8, 61u8, 34u8];
    let r = bytes::to_vec(arr.as_slice());
    proof {
        assert(r@ =~= tok_payload_def_prefix());
    }
    r
}

/// The closing quote of the payload path define.  (`"`)
pub open spec fn tok_quote() -> Seq<u8> {
    seq![34u8]
}

/// The executable form of `tok_quote`.
pub fn tok_quote_vec() -> (r: Vec<u8>)
    ensures
        r@ == tok_quote(),
{
    let arr: [u8; 1] = [34u8];
    let r = bytes::to_vec(arr.as_slice());
    proof {
        assert(r@ =~= tok_quote());
    }
    r
}

/// Name prefix of a prebuilt module archive.  (`libtinyrust-`)
pub open spec fn rlib_prefix() -> Seq<u8> {
    seq![108u8, 105u8, 98u8, 116u8, 105u8, 110u8, 121u8, 114u8, 117u8, 115u8, 116u8, 45u8]
}

/// The executable form of `rlib_prefix`.
pub fn rlib_prefix_vec() -> (r: Vec<u8>)
    ensures
        r@ == rlib_prefix(),
{
    let arr: [u8; 12] = [108u8, 105u8, 98u8, 116u8, 105u8, 110u8, 121u8, 114u8, 117u8, 115u8, 116u8, 45u8];
    let r = bytes::to_vec(arr.as_slice());
    proof {
        assert(r@ =~= rlib_prefix());
    }
    r
}

/// Name suffix of a module archive.  (`.rlib`)
pub open spec fn rlib_suffix() -> Seq<u8> {
    seq![46u8, 114u8, 108u8, 105u8, 98u8]
}

/// The executable form of `rlib_suffix`.
pub fn rlib_suffix_vec() -> (r: Vec<u8>)
    ensures
        r@ == rlib_suffix(),
{
    let arr: [u8; 5] = [46u8, 114u8, 108u8, 105u8, 98u8];
    let r = bytes::to_vec(arr.as_slice());
    proof {
        assert(r@ =~= rlib_suffix());
    }
    r
}

/// Name infix of the program's own object file.  (`tinyrust`)
pub open spec fn obj_infix() -> Seq<u8> {
    seq![116u8, 105u8, 110u8, 121u8, 114u8, 117u8, 115u8, 116u8]
}

/// The executable form of `obj_infix`.
pub fn obj_infix_vec() -> (r: Vec<u8>)
    ensures
        r@ == obj_infix(),
{
    let arr: [u8; 8] = [116u8, 105u8, 110u8, 121u8, 114u8, 117u8, 115u8, 116u8];
    let r = bytes::to_vec(arr.as_slice());
    proof {
        assert(r@ =~= obj_infix());
    }
    r
}

/// Name suffix of an object file.  (`.o`)
pub open spec fn obj_suffix() -> Seq<u8> {
    seq![46u8, 111u8]
}

/// The executable form of `obj_suffix`.
pub fn obj_suffix_vec() -> (r: Vec<u8>)
    ensures
        r@ == obj_suffix(),
{
    let arr: [u8; 2] = [46u8, 111u8];
    let r = bytes::to_vec(arr.as_slice());
    proof {
        assert(r@ =~= obj_suffix());
    }
    r
}

/// Canonical name of a freshly compiled archive.  (`libtinyrust.rlib`)
pub open spec fn fname_archive() -> Seq<u8> {
    seq![108u8, 105u8, 98u8, 116u8, 105u8, 110u8, 121u8, 114u8, 117u8, 115u8, 116u8, 46u8, 114u8, 108u8, 105u8, 98u8]
}

/// The executable form of `fname_archive`.
pub fn fname_archive_vec() -> (r: Vec<u8>)
    ensures
        r@ == fname_archive(),
{
    let arr: [u8; 16] = [108u8, 105u8, 98u8, 116u8, 105u8, 110u8, 121u8, 114u8, 117u8, 115u8, 116u8, 46u8, 114u8, 108u8, 105u8, 98u8];
    let r = bytes::to_vec(arr.as_slice());
    proof {
        assert(r@ =~= fname_archive());
    }
    r
}

/// Canonical name the selected object file is renamed to.  (`tinyrust.o`)
pub open spec fn fname_object() -> Seq<u8> {
    seq![116u8, 105u8, 110u8, 121u8, 114u8, 117u8, 115u8, 116u8, 46u8, 111u8]
}

/// The executable form of `fname_object`.
pub fn fname_object_vec() -> (r: Vec<u8>)
    ensures
        r@ == fname_object(),
{
    let arr: [u8; 10] = [116u8, 105u8, 110u8, 121u8, 114u8, 117u8, 115u8, 116u8, 46u8, 111u8];
    let r = bytes::to_vec(arr.as_slice());
    proof {
        assert(r@ =~= fname_object());
    }
    r
}

/// Scratch name of the linked image.  (`payload`)
pub open spec fn fname_payload() -> Seq<u8> {
    seq![112u8, 97u8, 121u8, 108u8, 111u8, 97u8, 100u8]
}

/// The executable form of `fname_payload`.
pub fn fname_payload_vec() -> (r: Vec<u8>)
    ensures
        r@ == fname_payload(),
{
    let arr: [u8; 7] = [112u8, 97u8, 121u8, 108u8, 111u8, 97u8, 100u8];
    let r = bytes::to_vec(arr.as_slice());
    proof {
        assert(r@ =~= fname_payload());
    }
    r
}

/// Scratch name of the extracted payload blob.  (`payload.bin`)
pub open spec fn fname_payload_bin() -> Seq<u8> {
    seq![112u8, 97u8, 121u8, 108u8, 111u8, 97u8, 100u8, 46u8, 98u8, 105u8, 110u8]
}

/// The executable form of `fname_payload_bin`.
pub fn fname_payload_bin_vec() -> (r: Vec<u8>)
    ensures
        r@ == fname_payload_bin(),
{
    let arr: [u8; 11] = [112u8, 97u8, 121u8, 108u8, 111u8, 97u8, 100u8, 46u8, 98u8, 105u8, 110u8];
    let r = bytes::to_vec(arr.as_slice());
    proof {
        assert(r@ =~= fname_payload_bin());
    }
    r
}

/// Scratch and installed name of the final executable.  (`tinyrust`)
pub open spec fn fname_exec() -> Seq<u8> {
    seq![116u8, 105u8, 110u8, 121u8, 114u8, 117u8, 115u8, 116u8]
}

/// The executable form of `fname_exec`.
pub fn fname_exec_vec() -> (r: Vec<u8>)
    ensures
        r@ == fname_exec(),
{
    let arr: [u8; 8] = [116u8, 105u8, 110u8, 121u8, 114u8, 117u8, 115u8, 116u8];
    let r = bytes::to_vec(arr.as_slice());
    proof {
        assert(r@ =~= fname_exec());
    }
    r
}

/// Scratch name of the layout script copy.  (`script.ld`)
pub open spec fn fname_script() -> Seq<u8> {
    seq![115u8, 99u8, 114u8, 105u8, 112u8, 116u8, 46u8, 108u8, 100u8]
}

/// The executable form of `fname_script`.
pub fn fname_script_vec() -> (r: Vec<u8>)
    ensures
        r@ == fname_script(),
{
    let arr: [u8; 9] = [115u8, 99u8, 114u8, 105u8, 112u8, 116u8, 46u8, 108u8, 100u8];
    let r = bytes::to_vec(arr.as_slice());
    proof {
        assert(r@ =~= fname_script());
    }
    r
}

/// Scratch name of the bootstrap template copy.  (`elf.s`)
pub open spec fn fname_stub() -> Seq<u8> {
    seq![101u8, 108u8, 102u8, 46u8, 115u8]
}

/// The executable form of `fname_stub`.
pub fn fname_stub_vec() -> (r: Vec<u8>)
    ensures
        r@ == fname_stub(),
{
    let arr: [u8; 5] = [101u8, 108u8, 102u8, 46u8, 115u8];
    let r = bytes::to_vec(arr.as_slice());
    proof {
        assert(r@ =~= fname_stub());
    }
    r
}

/// Path segment of the build output tree.  (`target`)
pub open spec fn seg_target() -> Seq<u8> {
    seq![116u8, 97u8, 114u8, 103u8, 101u8, 116u8]
}

/// The executable form of `seg_target`.
pub fn seg_target_vec() -> (r: Vec<u8>)
    ensures
        r@ == seg_target(),
{
    let arr: [u8; 6] = [116u8, 97u8, 114u8, 103u8, 101u8, 116u8];
    let r = bytes::to_vec(arr.as_slice());
    proof {
        assert(r@ =~= seg_target());
    }
    r
}

/// Path segment of the prebuilt archive directory.  (`deps`)
pub open spec fn seg_deps() -> Seq<u8> {
    seq![100u8, 101u8, 112u8, 115u8]
}

/// The executable form of `seg_deps`.
pub fn seg_deps_vec() -> (r: Vec<u8>)
    ensures
        r@ == seg_deps(),
{
    let arr: [u8; 4] = [100u8, 101u8, 112u8, 115u8];
    let r = bytes::to_vec(arr.as_slice());
    proof {
        assert(r@ =~= seg_deps());
    }
    r
}

/// Path of the program source under the project root.  (`src/lib.rs`)
pub open spec fn seg_src_lib() -> Seq<u8> {
    seq![115u8, 114u8, 99u8, 47u8, 108u8, 105u8, 98u8, 46u8, 114u8, 115u8]
}

/// The executable form of `seg_src_lib`.
pub fn seg_src_lib_vec() -> (r: Vec<u8>)
    ensures
        r@ == seg_src_lib(),
{
    let arr: [u8; 10] = [115u8, 114u8, 99u8, 47u8, 108u8, 105u8, 98u8, 46u8, 114u8, 115u8];
    let r = bytes::to_vec(arr.as_slice());
    proof {
        assert(r@ =~= seg_src_lib());
    }
    r
}

} // verus!
