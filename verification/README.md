# helium

The logic of a small x86_64 kernel and of the libraries of its user
programs, written in Verus and proved against its contracts.

## Layout

- `src/address.rs`: physical and virtual addresses, frames.
- `src/vfs/`: the virtual filesystem.
  - `name.rs`, `path.rs`: valid names and the parsing of paths.
  - `dentry.rs`: the dentry cache, a tree of dentries held in a vector and
    designated by index; looking up, connecting and disconnecting children,
    fetching them through the filesystem driver.
  - `mod.rs`: the walk of a path through the cache (`lookup`), reading a
    whole file, filling the root ramdisk at boot.
  - `inode.rs`, `mount.rs`, `fs.rs`: inodes, superblocks with their cache of
    inodes, the registry of filesystem types.
  - `file.rs`, `fd.rs`, `dirent.rs`: open files, the table of file
    descriptors of a process, directory entries.
  - `pipe/`: pipes over a `circular_buffer::CircularBuffer`. A read or a
    write that has to wait says so; the caller sleeps and calls again.
- `src/x86_64/`: the CPU side.
  - `paging/`: page table entries and a page table hierarchy modelled as
    frames of 512 words, with `map`, `unmap` and `resolve`, and the frames
    that dropping an address space frees.
  - `gdt.rs`, `tss.rs`: descriptor tables, selectors, the TSS descriptor
    (its bit ranges are set through the `bitfield` crate).
  - `pic.rs`, `pit.rs`, `lapic.rs`, `irq.rs`, `exception.rs`, `smp.rs`,
    `thread.rs`, `percpu.rs`, `fpu.rs`, `cpu.rs`, `user.rs`: what the kernel
    computes around the hardware: commands, register values, decisions.
- `src/user/`: the system call library (`syscall/`: error codes, results
  of each call) and the runtime of programs (`iron/`).
- `app/`: what cannot be proved: the `syscall` instruction, port,
  control register and memory-mapped register accesses, the sleeping
  of threads on pipes, and the boot of the filesystem and the page fault
  handler, where a failure stops the kernel.
- `tests/`: tests of the library on concrete values.

The laws that relate several functions are public proof functions named
`law_*`.
