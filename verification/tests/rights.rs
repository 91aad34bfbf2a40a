use landlock::{AccessFs, AccessNet, BitFlags};
use sandbox::{compile_role, FsAccess, FsRight, NetAccess, NetRight, Role};

const ALL_FS: [FsRight; 17] = [
    FsRight::Execute,
    FsRight::WriteFile,
    FsRight::ReadFile,
    FsRight::ReadDir,
    FsRight::RemoveDir,
    FsRight::RemoveFile,
    FsRight::MakeChar,
    FsRight::MakeDir,
    FsRight::MakeReg,
    FsRight::MakeSock,
    FsRight::MakeFifo,
    FsRight::MakeBlock,
    FsRight::MakeSym,
    FsRight::Refer,
    FsRight::Truncate,
    FsRight::IoctlDev,
    FsRight::ResolveUnix,
];

fn kernel_bits(right: AccessFs) -> u64 {
    BitFlags::<AccessFs>::from(right).bits()
}

#[test]
fn fs_right_bits_are_the_kernel_bits() {
    assert_eq!(FsRight::Execute.bit(), kernel_bits(AccessFs::Execute));
    assert_eq!(FsRight::WriteFile.bit(), kernel_bits(AccessFs::WriteFile));
    assert_eq!(FsRight::ReadFile.bit(), kernel_bits(AccessFs::ReadFile));
    assert_eq!(FsRight::ReadDir.bit(), kernel_bits(AccessFs::ReadDir));
    assert_eq!(FsRight::RemoveDir.bit(), kernel_bits(AccessFs::RemoveDir));
    assert_eq!(FsRight::RemoveFile.bit(), kernel_bits(AccessFs::RemoveFile));
    assert_eq!(FsRight::MakeChar.bit(), kernel_bits(AccessFs::MakeChar));
    assert_eq!(FsRight::MakeDir.bit(), kernel_bits(AccessFs::MakeDir));
    assert_eq!(FsRight::MakeReg.bit(), kernel_bits(AccessFs::MakeReg));
    assert_eq!(FsRight::MakeSock.bit(), kernel_bits(AccessFs::MakeSock));
    assert_eq!(FsRight::MakeFifo.bit(), kernel_bits(AccessFs::MakeFifo));
    assert_eq!(FsRight::MakeBlock.bit(), kernel_bits(AccessFs::MakeBlock));
    assert_eq!(FsRight::MakeSym.bit(), kernel_bits(AccessFs::MakeSym));
    assert_eq!(FsRight::Refer.bit(), kernel_bits(AccessFs::Refer));
    assert_eq!(FsRight::Truncate.bit(), kernel_bits(AccessFs::Truncate));
    assert_eq!(FsRight::IoctlDev.bit(), kernel_bits(AccessFs::IoctlDev));
    assert_eq!(FsRight::ResolveUnix.bit(), kernel_bits(AccessFs::ResolveUnix));
}

#[test]
fn net_right_bits_are_the_kernel_bits() {
    assert_eq!(NetRight::BindTcp.bit(), BitFlags::<AccessNet>::from(AccessNet::BindTcp).bits());
    assert_eq!(
        NetRight::ConnectTcp.bit(),
        BitFlags::<AccessNet>::from(AccessNet::ConnectTcp).bits()
    );
    assert_eq!(NetRight::BindTcp.bit(), 1);
    assert_eq!(NetRight::ConnectTcp.bit(), 2);
}

#[test]
fn fs_right_bits_are_distinct_single_bits() {
    let mut seen: u64 = 0;
    for right in ALL_FS {
        let bit = right.bit();
        assert_eq!(bit.count_ones(), 1);
        assert_eq!(seen & bit, 0);
        seen |= bit;
    }
    assert_eq!(seen, 0x1_FFFF);
}

#[test]
fn read_role_is_read_file_and_read_dir() {
    let read = compile_role(Role::Read);
    assert_eq!(read.bits(), (AccessFs::ReadFile | AccessFs::ReadDir).bits());
    assert_eq!(read.bits(), 0xC);
    for right in ALL_FS {
        let expected = matches!(right, FsRight::ReadFile | FsRight::ReadDir);
        assert_eq!(read.contains(right), expected);
    }
}

#[test]
fn write_role_implies_read() {
    let write = compile_role(Role::Write);
    let expected = AccessFs::ReadFile
        | AccessFs::ReadDir
        | AccessFs::WriteFile
        | AccessFs::RemoveFile
        | AccessFs::RemoveDir
        | AccessFs::MakeChar
        | AccessFs::MakeDir
        | AccessFs::MakeReg
        | AccessFs::MakeSock
        | AccessFs::MakeFifo
        | AccessFs::MakeBlock
        | AccessFs::MakeSym
        | AccessFs::Truncate;
    assert_eq!(write.bits(), expected.bits());
    assert_eq!(write.bits(), 0x5FFE);
    assert!(write.contains(FsRight::ReadFile));
    assert!(write.contains(FsRight::ReadDir));
    assert!(write.contains(FsRight::Truncate));
    assert!(!write.contains(FsRight::Execute));
    assert!(!write.contains(FsRight::Refer));
    assert!(!write.contains(FsRight::IoctlDev));
    assert!(!write.contains(FsRight::ResolveUnix));
}

#[test]
fn execute_role_implies_reading_the_file() {
    let execute = compile_role(Role::Execute);
    assert_eq!(execute.bits(), (AccessFs::Execute | AccessFs::ReadFile).bits());
    assert_eq!(execute.bits(), 0x5);
    assert!(!execute.contains(FsRight::ReadDir));
}

#[test]
fn read_and_write_compose_to_their_union() {
    let read = compile_role(Role::Read);
    let write = compile_role(Role::Write);
    let both = read.union(write);
    assert_eq!(both.bits(), read.bits() | write.bits());
    assert_eq!(both, write);
    for right in ALL_FS {
        assert_eq!(both.contains(right), read.contains(right) || write.contains(right));
    }
}

#[test]
fn read_and_execute_compose_to_their_union() {
    let both = compile_role(Role::Read).union(compile_role(Role::Execute));
    assert_eq!(both.bits(), 0xD);
    assert_eq!(both, compile_role(Role::Execute).union(compile_role(Role::Read)));
}

#[test]
fn empty_set_holds_nothing() {
    let none = FsAccess::empty();
    assert!(none.is_empty());
    assert_eq!(none.bits(), 0);
    for right in ALL_FS {
        assert!(!none.contains(right));
    }
    assert_eq!(none.union(none), none);
    assert!(NetAccess::empty().is_empty());
    assert_eq!(NetAccess::empty().bits(), 0);
}

#[test]
fn with_adds_one_right() {
    let one = FsAccess::empty().with(FsRight::MakeReg);
    assert!(!one.is_empty());
    assert_eq!(one.bits(), 0x100);
    assert!(one.contains(FsRight::MakeReg));
    assert!(!one.contains(FsRight::MakeDir));
    assert_eq!(one.with(FsRight::MakeReg), one);
    let connect = NetAccess::empty().with(NetRight::ConnectTcp);
    assert_eq!(connect.bits(), 2);
    assert!(connect.contains(NetRight::ConnectTcp));
    assert!(!connect.contains(NetRight::BindTcp));
    assert!(!connect.is_empty());
}

#[test]
fn filesystem_rights_by_level() {
    assert_eq!(FsAccess::all_at(0).bits(), 0);
    assert_eq!(FsAccess::all_at(1).bits(), 0x1FFF);
    assert_eq!(FsAccess::all_at(2).bits(), 0x3FFF);
    assert_eq!(FsAccess::all_at(3).bits(), 0x7FFF);
    assert_eq!(FsAccess::all_at(4).bits(), 0x7FFF);
    assert_eq!(FsAccess::all_at(5).bits(), 0xFFFF);
    assert_eq!(FsAccess::all_at(6).bits(), 0xFFFF);
    assert_eq!(FsAccess::all_at(7).bits(), 0xFFFF);
    assert_eq!(FsAccess::all_at(8).bits(), 0xFFFF);
    assert_eq!(FsAccess::all_at(9).bits(), 0x1_FFFF);
    assert_eq!(FsAccess::all_at(10).bits(), 0x1_FFFF);
    assert_eq!(FsAccess::all_at(255).bits(), 0x1_FFFF);
    assert!(FsAccess::all_at(0).is_empty());
}

#[test]
fn filesystem_rights_appear_at_their_level() {
    assert!(!FsAccess::all_at(1).contains(FsRight::Refer));
    assert!(FsAccess::all_at(2).contains(FsRight::Refer));
    assert!(!FsAccess::all_at(2).contains(FsRight::Truncate));
    assert!(FsAccess::all_at(3).contains(FsRight::Truncate));
    assert!(!FsAccess::all_at(4).contains(FsRight::IoctlDev));
    assert!(FsAccess::all_at(5).contains(FsRight::IoctlDev));
    assert!(!FsAccess::all_at(8).contains(FsRight::ResolveUnix));
    assert!(FsAccess::all_at(9).contains(FsRight::ResolveUnix));
    assert!(FsAccess::all_at(1).contains(FsRight::Execute));
    assert!(FsAccess::all_at(1).contains(FsRight::MakeSym));
}

#[test]
fn network_rights_by_level() {
    assert_eq!(NetAccess::all_at(0).bits(), 0);
    assert_eq!(NetAccess::all_at(1).bits(), 0);
    assert_eq!(NetAccess::all_at(3).bits(), 0);
    assert_eq!(NetAccess::all_at(4).bits(), 3);
    assert_eq!(NetAccess::all_at(5).bits(), 3);
    assert_eq!(NetAccess::all_at(9).bits(), 3);
    assert_eq!(NetAccess::all_at(255).bits(), 3);
    assert!(NetAccess::all_at(3).is_empty());
    assert!(NetAccess::all_at(4).contains(NetRight::BindTcp));
    assert!(NetAccess::all_at(4).contains(NetRight::ConnectTcp));
}

#[test]
fn every_role_is_within_the_target_level() {
    let all = FsAccess::all_at(5);
    for role in [Role::Read, Role::Write, Role::Execute] {
        let rights = compile_role(role);
        assert!(!rights.is_empty());
        assert_eq!(rights.union(all), all);
    }
}
