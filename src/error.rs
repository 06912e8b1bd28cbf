use vstd::prelude::*;

verus! {

/// Errors of the Vulkan renderer. A Vulkan result is carried as its raw
/// `VkResult` code and an OS error as its errno value.
#[derive(Debug, Clone, PartialEq, Eq)]
pub enum VulkanError {
    Gbm,
    Load,
    InstanceExtensions(i32),
    InstanceLayers(i32),
    DeviceExtensions(i32),
    CreateDevice(i32),
    CreateSemaphore(i32),
    CreateFence(i32),
    CreateBuffer(i32),
    CreateShaderModule(i32),
    MissingInstanceExtension(String),
    AllocateCommandPool(i32),
    AllocateCommandBuffer(i32),
    NoGraphicsQueue,
    MissingDeviceExtension(String),
    CreateInstance(i32),
    Messenger(i32),
    Fstat(i32),
    EnumeratePhysicalDevices(i32),
    NoDeviceFound(u64),
    LoadImageProperties(i32),
    XRGB8888,
    SyncobjImport,
    BeginCommandBuffer(i32),
    EndCommandBuffer(i32),
    Submit(i32),
    CreateSampler(i32),
    CreatePipelineLayout(i32),
    CreateDescriptorSetLayout(i32),
    CreatePipeline(i32),
    FormatNotSupported,
    ModifierNotSupported,
    ModifierUseNotSupported,
    NonPositiveImageSize,
    ImageTooLarge,
    GetDeviceProperties(i32),
    BadPlaneCount,
    DisjointNotSupported,
    CreateImage(i32),
    CreateImageView(i32),
    MemoryFdProperties(i32),
    MemoryType,
    Dupfd(i32),
    AllocateMemory(i32),
    AllocateMemory2,
    BindImageMemory(i32),
    ShmNotSupported,
    BindBufferMemory(i32),
    MapMemory,
    FlushMemory(i32),
    IoctlExportSyncFile(i32),
    ImportSyncFile(i32),
    IoctlImportSyncFile(i32),
    ExportSyncFile(i32),
    FetchRenderNode,
    NoRenderNode,
    ShmOverflow,
    InvalidStride,
    InvalidBufferSize,
    InvalidShmParameters { x: i32, y: i32, width: i32, height: i32, stride: i32 },
}

} // verus!
